//! Mention cleaning and deduplication.

use vstd::prelude::*;
use crate::text::{lowercase_text, lowercased, trim_text, trimmed};
use crate::types::Mention;

verus! {

#[verifier::external_type_specification]
#[verifier::external_body]
pub struct ExRegexError(regex::Error);

/// What `regex::Regex::replace_all` makes of `haystack` for the regex
/// `pattern` and the literal replacement `replacement`.
pub uninterp spec fn regex_replaced(pattern: Seq<char>, haystack: Seq<char>, replacement: Seq<char>) -> Seq<char>;

/// Relies on `regex::Regex::new` (fails only on a pattern with a syntax
/// error or one over the size limit, which the two cleaning patterns are not)
/// and `regex::Regex::replace_all` (every non-overlapping match replaced).
#[verifier::external_body]
fn replace_all_matches(pattern: &str, haystack: &str, replacement: &str) -> (r: Result<String, regex::Error>)
    ensures
        r matches Ok(out) ==> out@ == regex_replaced(pattern@, haystack@, replacement@),
        pattern@ == url_pattern() || pattern@ == space_pattern() ==> r is Ok,
{
    match regex::Regex::new(pattern) {
        Ok(re) => Ok(re.replace_all(haystack, regex::NoExpand(replacement)).into_owned()),
        Err(e) => Err(e),
    }
}

/// A web link: `http://` or `https://`, in any case, and the non-space run
/// after it.
pub open spec fn url_pattern() -> Seq<char> {
    "(?i)https?://\\S+"@
}

/// A run of white space.
pub open spec fn space_pattern() -> Seq<char> {
    "\\s+"@
}

/// A mention's text after cleaning: links removed, trimmed, white-space runs
/// made one space, lower-cased.
pub open spec fn cleaned(text: Seq<char>) -> Seq<char> {
    lowercased(regex_replaced(space_pattern(), trimmed(regex_replaced(url_pattern(), text, ""@)), " "@))
}

/// Deduplication: empty texts dropped, the first of equal texts kept, order kept.
pub open spec fn dedup_texts(s: Seq<Seq<char>>) -> Seq<Seq<char>>
    decreases s.len(),
{
    if s.len() == 0 {
        Seq::empty()
    } else {
        let d = dedup_texts(s.drop_last());
        if s.last().len() == 0 || d.contains(s.last()) {
            d
        } else {
            d.push(s.last())
        }
    }
}

/// No empty text and no text twice.
pub open spec fn distinct_nonempty(s: Seq<Seq<char>>) -> bool {
    &&& forall|i: int| 0 <= i < s.len() ==> #[trigger] s[i].len() > 0
    &&& forall|i: int, j: int| 0 <= i < j < s.len() ==> s[i] != s[j]
}

pub open spec fn texts_of(v: Seq<String>) -> Seq<Seq<char>> {
    v.map_values(|x: String| x@)
}

pub open spec fn mention_texts(v: Seq<Mention>) -> Seq<Seq<char>> {
    v.map_values(|m: Mention| m.text@)
}

/// Cleans one mention's text.
pub fn clean_text(text: &str) -> (r: String)
    ensures
        r@ == cleaned(text@),
{
    let without_urls = match replace_all_matches("(?i)https?://\\S+", text, "") {
        Ok(s) => s,
        Err(_) => String::new(),
    };
    let trimmed_text = trim_text(without_urls.as_str());
    let collapsed = match replace_all_matches("\\s+", trimmed_text.as_str(), " ") {
        Ok(s) => s,
        Err(_) => String::new(),
    };
    lowercase_text(collapsed.as_str())
}

/// Whether `text` is among `items`.
pub(crate) fn contains_string(items: &Vec<String>, text: &String) -> (r: bool)
    ensures
        r == texts_of(items@).contains(text@),
{
    let mut i: usize = 0;
    while i < items.len()
        invariant
            i <= items.len(),
            forall|j: int| 0 <= j < i ==> items@[j]@ != text@,
        decreases items.len() - i,
    {
        if items[i] == *text {
            assert(texts_of(items@)[i as int] == text@);
            return true;
        }
        i = i + 1;
    }
    proof {
        if texts_of(items@).contains(text@) {
            let k = choose|k: int| 0 <= k < texts_of(items@).len() && texts_of(items@)[k] == text@;
            assert(items@[k]@ == text@);
        }
    }
    false
}

/// Drops empty texts and later copies of a text, keeping the order.
pub fn dedup_cleaned(texts: &Vec<String>) -> (r: Vec<String>)
    ensures
        texts_of(r@) == dedup_texts(texts_of(texts@)),
        distinct_nonempty(texts_of(r@)),
{
    let mut out: Vec<String> = Vec::new();
    let mut i: usize = 0;
    while i < texts.len()
        invariant
            i <= texts.len(),
            texts_of(out@) == dedup_texts(texts_of(texts@).take(i as int)),
        decreases texts.len() - i,
    {
        let ghost before = texts_of(texts@).take(i as int);
        proof {
            assert(texts_of(texts@).take(i as int + 1).drop_last() =~= before);
            assert(texts_of(texts@).take(i as int + 1).last() == texts@[i as int]@);
        }
        let candidate = &texts[i];
        if !candidate.as_str().is_empty() && !contains_string(&out, candidate) {
            out.push(candidate.clone());
            proof {
                assert(texts_of(out@) =~= dedup_texts(before).push(texts@[i as int]@));
            }
        }
        i = i + 1;
    }
    proof {
        assert(texts_of(texts@).take(texts.len() as int) =~= texts_of(texts@));
        lemma_dedup_distinct(texts_of(texts@));
    }
    out
}

/// Cleans every mention and deduplicates the results.
pub fn preprocess(mentions: &Vec<Mention>) -> (r: Vec<String>)
    ensures
        texts_of(r@) == dedup_texts(cleaned_all(mention_texts(mentions@))),
        distinct_nonempty(texts_of(r@)),
{
    let mut all: Vec<String> = Vec::new();
    let mut i: usize = 0;
    while i < mentions.len()
        invariant
            i <= mentions.len(),
            all@.len() == i,
            forall|j: int| 0 <= j < i ==> #[trigger] all@[j]@ == cleaned(mentions@[j].text@),
        decreases mentions.len() - i,
    {
        all.push(clean_text(mentions[i].text.as_str()));
        i = i + 1;
    }
    proof {
        assert(texts_of(all@) =~= cleaned_all(mention_texts(mentions@)));
    }
    dedup_cleaned(&all)
}

/// What deduplication returns holds no empty text and no text twice.
pub proof fn lemma_dedup_distinct(s: Seq<Seq<char>>)
    ensures
        distinct_nonempty(dedup_texts(s)),
    decreases s.len(),
{
    if s.len() > 0 {
        lemma_dedup_distinct(s.drop_last());
    }
}

/// Deduplication leaves a list with no empty text and no text twice as it is.
pub proof fn lemma_dedup_keeps_distinct(s: Seq<Seq<char>>)
    requires
        distinct_nonempty(s),
    ensures
        dedup_texts(s) == s,
    decreases s.len(),
{
    if s.len() > 0 {
        let p = s.drop_last();
        assert(distinct_nonempty(p));
        lemma_dedup_keeps_distinct(p);
        assert(!p.contains(s.last())) by {
            if p.contains(s.last()) {
                let k = choose|k: int| 0 <= k < p.len() && p[k] == s.last();
                assert(s[k] == s[s.len() - 1]);
            }
        }
        assert(s.last().len() > 0) by {
            assert(s[s.len() - 1].len() > 0);
        }
        assert(p.push(s.last()) =~= s);
    }
}

/// Every text cleaned.
pub open spec fn cleaned_all(texts: Seq<Seq<char>>) -> Seq<Seq<char>> {
    texts.map_values(|t: Seq<char>| cleaned(t))
}

/// Preprocessing its own output gives the same list back, wherever
/// cleaning leaves an already-cleaned text unchanged. What cleaning does is
/// known here only by name (the regex engine and Unicode lower-casing), so
/// that stability is the premise.
pub proof fn lemma_preprocess_stable(texts: Seq<Seq<char>>)
    requires
        forall|i: int| 0 <= i < dedup_texts(cleaned_all(texts)).len()
            ==> cleaned(#[trigger] dedup_texts(cleaned_all(texts))[i]) == dedup_texts(cleaned_all(texts))[i],
    ensures
        dedup_texts(cleaned_all(dedup_texts(cleaned_all(texts)))) == dedup_texts(cleaned_all(texts)),
{
    let once = dedup_texts(cleaned_all(texts));
    assert(cleaned_all(once) =~= once);
    lemma_dedup_idempotent(cleaned_all(texts));
}

/// Deduplicating twice gives what deduplicating once gives.
pub proof fn lemma_dedup_idempotent(s: Seq<Seq<char>>)
    ensures
        dedup_texts(dedup_texts(s)) == dedup_texts(s),
{
    lemma_dedup_distinct(s);
    lemma_dedup_keeps_distinct(dedup_texts(s));
}

} // verus!
