use worker_rs::preprocess::{clean_text, dedup_cleaned, preprocess};
use worker_rs::types::Mention;

fn mention(text: &str) -> Mention {
    Mention { id: "m".to_string(), source: "test".to_string(), text: text.to_string(), created_at: 0, sentiment: None, metadata: None }
}

fn strings(items: &[&str]) -> Vec<String> {
    items.iter().map(|s| s.to_string()).collect()
}

#[test]
fn dedup_normalize_collapses_to_one_entry() {
    let mentions = vec![mention("Visit https://x.com now"), mention("visit now"), mention("VISIT   NOW")];
    let out = preprocess(&mentions);
    assert_eq!(out, strings(&["visit now"]));
}

#[test]
fn clean_text_strips_links_collapses_space_and_lowers() {
    assert_eq!(clean_text("  Hello\t\tWORLD  http://a.b/c?d=1 "), "hello world");
    assert_eq!(clean_text("see https://example.com/x and http://y.z"), "see and");
    assert_eq!(clean_text(""), "");
    assert_eq!(clean_text("https://only.link"), "");
}

#[test]
fn clean_text_is_idempotent_on_cleaned_text() {
    for raw in ["Visit https://x.com now", "  Mixed   CASE\ttext ", "ünïcödé ÄÖÜ", "a  b   c"] {
        let once = clean_text(raw);
        let twice = clean_text(&once);
        assert_eq!(once, twice);
    }
}

#[test]
fn links_are_stripped_in_any_case() {
    assert_eq!(clean_text("Read HTTP://X.COM/Path now"), "read now");
    assert_eq!(clean_text("HtTpS://a.b"), "");
    assert_eq!(clean_text(&clean_text("Go Https://Q.R today")), "go today");
}

#[test]
fn preprocessing_its_own_output_changes_nothing() {
    let mentions = vec![mention("Visit https://x.com now"), mention("  Other   TEXT "), mention("visit now")];
    let once = preprocess(&mentions);
    let again: Vec<Mention> = once.iter().map(|t| mention(t)).collect();
    assert_eq!(preprocess(&again), once);
}

#[test]
fn mention_keeps_optional_fields() {
    let m = Mention {
        id: "m".to_string(),
        source: "s".to_string(),
        text: "t".to_string(),
        created_at: 1,
        sentiment: Some(vec![("positive".to_string(), 250_000)]),
        metadata: Some(vec![("lang".to_string(), "\"en\"".to_string())]),
    };
    assert_eq!(m.sentiment.as_ref().unwrap()[0].1, 250_000);
    assert_eq!(m.metadata.as_ref().unwrap()[0].0, "lang");
}

#[test]
fn dedup_keeps_first_occurrence_and_order() {
    let out = dedup_cleaned(&strings(&["b", "", "a", "b", "c", "a"]));
    assert_eq!(out, strings(&["b", "a", "c"]));
    assert_eq!(dedup_cleaned(&out), out);
}

#[test]
fn dedup_of_nothing_is_nothing() {
    assert!(dedup_cleaned(&Vec::new()).is_empty());
    assert!(dedup_cleaned(&strings(&["", ""])).is_empty());
}

#[test]
fn preprocess_drops_mentions_that_clean_to_nothing() {
    let mentions = vec![mention("https://a.b"), mention("   "), mention("")];
    assert!(preprocess(&mentions).is_empty());
    assert!(preprocess(&Vec::new()).is_empty());
}
