//! Cache keys: the SHA-256 digest of a URL plus an extension read off it.
//!
//! A key depends on the URL text alone, never on what the URL serves. Its file
//! name is the digest in 64 hexadecimal characters, a dot, and the extension.

use sha2::Digest;
use sha2::Sha256;
use vstd::prelude::*;
use vstd::utf8::encode_utf8;
use crate::extension::canonical_extension;
use crate::extension::extension_for;
use crate::extension::generic_extension;
use crate::extension::is_known_extension;
use crate::extension::lemma_extension_for_is_canonical;
use crate::hex::encode_hex;
use crate::hex::hex_lower;
use crate::hex::lemma_hex_lower_injective;
use crate::text::after_last;
use crate::text::chars_of;
use crate::text::find_after_last;
use crate::text::find_first;
use crate::text::first_index_or_len;

verus! {

/// Number of bytes in a digest.
pub const DIGEST_LEN: usize = 32;

/// The SHA-256 digest of a byte string.
pub uninterp spec fn sha256_of(data: Seq<u8>) -> Seq<u8>;

/// The lower-case form of a text, as Unicode defines it.
pub uninterp spec fn lowercase_of(text: Seq<char>) -> Seq<char>;

/// Calls `sha2::Sha256::digest`. Trusted: the result is the SHA-256 digest of
/// `data`, a function of `data` alone, and is 32 bytes long.
#[verifier::external_body]
fn sha256(data: &[u8]) -> (digest: Vec<u8>)
    ensures
        digest@ == sha256_of(data@),
        digest@.len() == DIGEST_LEN,
{
    Sha256::digest(data).to_vec()
}

/// Calls `str::to_lowercase`. Trusted: the result is a function of the
/// characters of `text` alone.
#[verifier::external_body]
fn to_lowercase(text: &str) -> (lowered: String)
    ensures
        lowered@ == lowercase_of(text@),
{
    text.to_lowercase()
}

/// The URL up to, and without, its first `?`.
pub open spec fn strip_query(url: Seq<char>) -> Seq<char> {
    url.take(first_index_or_len(url, '?'))
}

/// What follows the last `/` of a path; the whole path when it has none.
pub open spec fn final_segment(path: Seq<char>) -> Seq<char> {
    match after_last(path, '/') {
        Some(segment) => segment,
        None => path,
    }
}

/// What follows the last dot in the final path segment of a URL, its query
/// left aside; `None` when that segment has no dot.
pub open spec fn url_suffix(url: Seq<char>) -> Option<Seq<char>> {
    after_last(final_segment(strip_query(url)), '.')
}

/// The extension that the key of a URL carries.
pub open spec fn url_extension(url: Seq<char>) -> Seq<char> {
    match url_suffix(url) {
        Some(suffix) => extension_for(lowercase_of(suffix)),
        None => generic_extension(),
    }
}

/// What a cache key holds.
pub ghost struct KeyModel {
    pub digest: Seq<u8>,
    pub extension: Seq<char>,
}

impl KeyModel {
    /// A digest of the right length and an extension from the list, or `bin`.
    pub open spec fn wf(self) -> bool {
        &&& self.digest.len() == DIGEST_LEN
        &&& (is_known_extension(self.extension) || self.extension == generic_extension())
    }

    /// The name of the file that holds the entry.
    pub open spec fn file_name(self) -> Seq<char> {
        hex_lower(self.digest) + seq!['.'] + self.extension
    }
}

/// The key of a URL.
pub open spec fn derived_key(url: Seq<char>) -> KeyModel {
    KeyModel { digest: sha256_of(encode_utf8(url)), extension: url_extension(url) }
}

/// A cache key.
pub struct CacheKey {
    digest: Vec<u8>,
    extension: String,
}

impl View for CacheKey {
    type V = KeyModel;

    closed spec fn view(&self) -> KeyModel {
        KeyModel { digest: self.digest@, extension: self.extension@ }
    }
}

/// Where the suffix of a URL starts and ends among its characters.
pub fn find_suffix(chars: &[char]) -> (range: Option<(usize, usize)>)
    ensures
        match range {
            Some((begin, end)) => begin <= end <= chars@.len() && end == first_index_or_len(
                chars@,
                '?',
            ) && url_suffix(chars@) == Some(chars@.subrange(begin as int, end as int)),
            None => url_suffix(chars@) is None,
        },
{
    let end = find_first(chars, chars.len(), '?');
    proof {
        assert(chars@.take(chars@.len() as int) =~= chars@);
        chars@.index_of_first_ensures('?');
        assert(chars@.take(end as int) =~= chars@.subrange(0, end as int));
    }
    let segment_start = match find_after_last(chars, 0, end, '/') {
        Some(start) => start,
        None => 0,
    };
    match find_after_last(chars, segment_start, end, '.') {
        Some(begin) => Some((begin, end)),
        None => None,
    }
}

/// The extension for a suffix that has already been lower-cased, or for no
/// suffix at all.
pub fn extension_of_suffix(lowered: Option<&str>) -> (extension: &'static str)
    ensures
        extension@ == match lowered {
            Some(suffix) => extension_for(suffix@),
            None => generic_extension(),
        },
{
    match lowered {
        Some(suffix) => canonical_extension(suffix),
        None => "bin",
    }
}

/// Reads the extension off a URL.
pub fn extension_of_url(url: &str) -> (extension: &'static str)
    ensures
        extension@ == url_extension(url@),
{
    let chars = chars_of(url);
    match find_suffix(chars.as_slice()) {
        Some((begin, end)) => {
            let suffix = url.substring_char(begin, end);
            let lowered = to_lowercase(suffix);
            extension_of_suffix(Some(lowered.as_str()))
        },
        None => extension_of_suffix(None),
    }
}

/// The file name for a digest and an extension: the digest in hexadecimal,
/// a dot, and the extension.
pub fn file_name_of(digest: &[u8], extension: &str) -> (name: String)
    ensures
        name@ == (KeyModel { digest: digest@, extension: extension@ }).file_name(),
{
    let mut name = encode_hex(digest);
    proof {
        reveal_strlit(".");
        assert("."@ =~= seq!['.']);
    }
    name.append(".");
    name.append(extension);
    name
}

impl CacheKey {
    /// Every key holds a full digest and an extension from the list.
    #[verifier::type_invariant]
    spec fn inv(self) -> bool {
        self@.wf()
    }

    /// Whether the key holds a full digest and an extension from the list.
    pub open spec fn wf(&self) -> bool {
        self@.wf()
    }

    /// Derives the key of `url`: the digest of its bytes, query included, and
    /// the extension of its final path segment, query excluded.
    pub fn derive(url: &str) -> (key: CacheKey)
        ensures
            key@ == derived_key(url@),
            key.wf(),
    {
        let digest = sha256(url.as_bytes());
        let extension = extension_of_url(url);
        proof {
            if url_suffix(url@) is Some {
                lemma_extension_for_is_canonical(lowercase_of(url_suffix(url@).unwrap()));
            }
        }
        CacheKey { digest, extension: String::from_str(extension) }
    }

    /// The digest part of the key.
    pub fn digest(&self) -> (digest: &[u8])
        ensures
            digest@ == self@.digest,
            digest@.len() == DIGEST_LEN,
    {
        proof {
            use_type_invariant(self);
        }
        self.digest.as_slice()
    }

    /// The extension part of the key.
    pub fn extension(&self) -> (extension: &str)
        ensures
            extension@ == self@.extension,
            is_known_extension(extension@) || extension@ == generic_extension(),
    {
        proof {
            use_type_invariant(self);
        }
        self.extension.as_str()
    }

    /// The name of the file that holds the entry for this key.
    pub fn file_name(&self) -> (name: String)
        ensures
            name@ == self@.file_name(),
            self.wf(),
    {
        proof {
            use_type_invariant(self);
        }
        file_name_of(self.digest.as_slice(), self.extension.as_str())
    }
}

/// The cache file name for `url`.
pub fn get_cache_filename(url: &str) -> (name: String)
    ensures
        name@ == derived_key(url@).file_name(),
        derived_key(url@).wf(),
{
    CacheKey::derive(url).file_name()
}

/// The same URL always has the same key.
pub proof fn lemma_key_is_deterministic(first: Seq<char>, second: Seq<char>)
    requires
        first == second,
    ensures
        derived_key(first) == derived_key(second),
        derived_key(first).file_name() == derived_key(second).file_name(),
{
}

/// The extension of every URL is a known one or `bin`.
pub proof fn lemma_url_extension_is_canonical(url: Seq<char>)
    ensures
        is_known_extension(url_extension(url)) || url_extension(url) == generic_extension(),
{
    if url_suffix(url) is Some {
        lemma_extension_for_is_canonical(lowercase_of(url_suffix(url).unwrap()));
    }
}

/// A file name is 64 hexadecimal characters, a dot, and the extension.
pub proof fn lemma_file_name_shape(key: KeyModel)
    requires
        key.wf(),
    ensures
        key.file_name().len() == 65 + key.extension.len(),
        key.file_name().subrange(0, 64) == hex_lower(key.digest),
        key.file_name()[64] == '.',
        key.file_name().skip(65) == key.extension,
{
    assert(key.file_name().subrange(0, 64) =~= hex_lower(key.digest));
    assert(key.file_name().skip(65) =~= key.extension);
}

/// Two well-formed keys with the same file name are the same key.
pub proof fn lemma_file_name_injective(a: KeyModel, b: KeyModel)
    requires
        a.wf(),
        b.wf(),
        a.file_name() == b.file_name(),
    ensures
        a == b,
{
    lemma_file_name_shape(a);
    lemma_file_name_shape(b);
    lemma_hex_lower_injective(a.digest, b.digest);
}

/// Keys with different digests never share a file name, whatever their
/// extensions.
pub proof fn lemma_digest_decides_file_name(a: KeyModel, b: KeyModel)
    requires
        a.digest != b.digest,
    ensures
        a.file_name() != b.file_name(),
{
    if a.file_name() == b.file_name() {
        let end_a = hex_lower(a.digest).len() as int;
        let end_b = hex_lower(b.digest).len() as int;
        assert(a.file_name()[end_a] == '.');
        assert(b.file_name()[end_b] == '.');
        if end_a < end_b {
            assert(b.file_name()[end_a] == hex_lower(b.digest)[end_a]);
        } else if end_b < end_a {
            assert(a.file_name()[end_b] == hex_lower(a.digest)[end_b]);
        }
        assert(end_a == end_b);
        assert(a.file_name().subrange(0, end_a) =~= hex_lower(a.digest));
        assert(b.file_name().subrange(0, end_b) =~= hex_lower(b.digest));
        lemma_hex_lower_injective(a.digest, b.digest);
    }
}

/// Two URLs share a cache file only if their bytes have the same digest.
pub proof fn lemma_shared_file_means_shared_digest(first: Seq<char>, second: Seq<char>)
    ensures
        derived_key(first).file_name() == derived_key(second).file_name() ==> sha256_of(
            encode_utf8(first),
        ) == sha256_of(encode_utf8(second)),
{
    if derived_key(first).digest != derived_key(second).digest {
        lemma_digest_decides_file_name(derived_key(first), derived_key(second));
    }
}

/// The query of a URL changes the digest input but never the extension.
pub proof fn lemma_extension_ignores_query(url: Seq<char>, query: Seq<char>)
    requires
        !url.contains('?'),
    ensures
        url_extension(url + seq!['?'] + query) == url_extension(url),
{
    let full = url + seq!['?'] + query;
    crate::text::lemma_first_index_unique(full, '?', url.len() as int);
    url.index_of_first_ensures('?');
    assert(full.take(url.len() as int) =~= url);
    assert(url.take(url.len() as int) =~= url);
}

} // verus!
