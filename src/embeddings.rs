//! Embedding backends. A vector is held as bytes: coordinate `i` stands for
//! the real number `v[i] / 255`.

use vstd::prelude::*;
use crate::config::Settings;
use crate::text::same_text;
use vstd::utf8::encode_utf8;

verus! {

/// Length of a hashed vector.
pub const FALLBACK_DIM: usize = 128;

/// What SHA-256 makes of a byte string.
pub uninterp spec fn sha256_of(data: Seq<u8>) -> Seq<u8>;

/// Relies on `sha2::Sha256::digest`: the 32-byte SHA-256 digest of `data`.
#[verifier::external_body]
fn sha256_digest(data: &[u8]) -> (r: Vec<u8>)
    ensures
        r@ == sha256_of(data@),
        r@.len() == 32,
{
    <sha2::Sha256 as sha2::Digest>::digest(data).to_vec()
}

/// The digest of the text's UTF-8 bytes, repeated to `FALLBACK_DIM` bytes.
pub open spec fn hashed(text: Seq<u8>) -> Seq<u8> {
    Seq::new(FALLBACK_DIM as nat, |i: int| sha256_of(text)[i % 32])
}

pub fn hash_vector(text: &str) -> (r: Vec<u8>)
    ensures
        r@ == hashed(encode_utf8(text@)),
{
    let digest = sha256_digest(text.as_bytes());
    let mut out: Vec<u8> = Vec::new();
    let mut i: usize = 0;
    while i < FALLBACK_DIM
        invariant
            i <= FALLBACK_DIM,
            digest@ == sha256_of(encode_utf8(text@)),
            digest@.len() == 32,
            out@ =~= hashed(encode_utf8(text@)).take(i as int),
        decreases FALLBACK_DIM - i,
    {
        out.push(digest[i % 32]);
        i = i + 1;
    }
    out
}

/// A text-to-vector backend.
pub trait EmbeddingAdapter {
    /// The vector this backend gives a text.
    spec fn embedding_of(&self, text: Seq<char>) -> Seq<u8>;

    /// One vector per text, in order.
    fn embed(&self, texts: &Vec<String>) -> (r: Vec<Vec<u8>>)
        ensures
            r.len() == texts.len(),
            forall|i: int| 0 <= i < texts.len() ==> #[trigger] r@[i]@ == self.embedding_of(texts@[i]@);
}

fn hash_all(texts: &Vec<String>) -> (r: Vec<Vec<u8>>)
    ensures
        r.len() == texts.len(),
        forall|i: int| 0 <= i < texts.len() ==> #[trigger] r@[i]@ == hashed(encode_utf8(texts@[i]@)),
{
    let mut out: Vec<Vec<u8>> = Vec::new();
    let mut i: usize = 0;
    while i < texts.len()
        invariant
            i <= texts.len(),
            out.len() == i,
            forall|j: int| 0 <= j < i ==> #[trigger] out@[j]@ == hashed(encode_utf8(texts@[j]@)),
        decreases texts.len() - i,
    {
        out.push(hash_vector(texts[i].as_str()));
        i = i + 1;
    }
    out
}

/// Local backend: each text's vector comes from its SHA-256 digest.
#[derive(Debug, Clone, Copy)]
pub struct HashEmbeddingAdapter;

impl HashEmbeddingAdapter {
    /// The hashed vector of every text.
    pub fn embed_hashed(&self, texts: &Vec<String>) -> (r: Vec<Vec<u8>>)
        ensures
            r.len() == texts.len(),
            forall|i: int| 0 <= i < texts.len() ==> #[trigger] r@[i]@ == hashed(encode_utf8(texts@[i]@)),
    {
        hash_all(texts)
    }
}

impl EmbeddingAdapter for HashEmbeddingAdapter {
    open spec fn embedding_of(&self, text: Seq<char>) -> Seq<u8> {
        hashed(encode_utf8(text))
    }

    fn embed(&self, texts: &Vec<String>) -> (r: Vec<Vec<u8>>) {
        hash_all(texts)
    }
}

/// A named remote provider; until one is wired in it hashes as the local
/// backend does.
#[derive(Debug, Clone)]
pub struct RemoteEmbeddingAdapter {
    pub provider: String,
}

impl EmbeddingAdapter for RemoteEmbeddingAdapter {
    open spec fn embedding_of(&self, text: Seq<char>) -> Seq<u8> {
        hashed(encode_utf8(text))
    }

    fn embed(&self, texts: &Vec<String>) -> (r: Vec<Vec<u8>>) {
        hash_all(texts)
    }
}

/// The backend chosen by configuration.
#[derive(Debug, Clone)]
pub enum EmbeddingBackend {
    Local(HashEmbeddingAdapter),
    Remote(RemoteEmbeddingAdapter),
}

impl EmbeddingAdapter for EmbeddingBackend {
    open spec fn embedding_of(&self, text: Seq<char>) -> Seq<u8> {
        match self {
            EmbeddingBackend::Local(a) => a.embedding_of(text),
            EmbeddingBackend::Remote(a) => a.embedding_of(text),
        }
    }

    fn embed(&self, texts: &Vec<String>) -> (r: Vec<Vec<u8>>) {
        match self {
            EmbeddingBackend::Local(a) => a.embed(texts),
            EmbeddingBackend::Remote(a) => a.embed(texts),
        }
    }
}

/// `local` selects hashing, any other provider a remote backend.
pub fn build_embedding_adapter(settings: &Settings) -> (r: EmbeddingBackend)
    ensures
        (r is Local) == (settings.embeddings_provider@ == "local"@),
        r matches EmbeddingBackend::Remote(a) ==> a.provider@ == settings.embeddings_provider@,
{
    if same_text(settings.embeddings_provider.as_str(), "local") {
        EmbeddingBackend::Local(HashEmbeddingAdapter)
    } else {
        EmbeddingBackend::Remote(RemoteEmbeddingAdapter { provider: settings.embeddings_provider.clone() })
    }
}

} // verus!
