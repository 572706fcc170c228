//! The settings for the remote API that the application talks to: where it
//! lives, the token to present, and how this device names itself.

use vstd::prelude::*;
use crate::text::chars_of;

verus! {

/// `text` without any trailing repetitions of `suffix`.
pub open spec fn trim_end(text: Seq<char>, suffix: Seq<char>) -> Seq<char>
    decreases text.len(),
{
    if suffix.len() > 0 && suffix.is_suffix_of(text) {
        trim_end(text.take(text.len() - suffix.len()), suffix)
    } else {
        text
    }
}

/// The base URL kept for an address as the user typed it: trailing slashes
/// go, then any trailing `/api/v1`, and one `/api/v1` is put at the end.
pub open spec fn api_base_url(api_url: Seq<char>) -> Seq<char> {
    trim_end(trim_end(api_url, "/"@), "/api/v1"@) + "/api/v1"@
}

/// The identifier of a device with the host name `host`.
pub open spec fn device_id_for(host: Seq<char>) -> Seq<char> {
    "desktop_"@ + host
}

/// Whether `suffix` stands at the end of the first `end` characters.
fn ends_with(chars: &[char], end: usize, suffix: &[char]) -> (found: bool)
    requires
        end <= chars@.len(),
    ensures
        found == suffix@.is_suffix_of(chars@.take(end as int)),
{
    if suffix.len() > end {
        return false;
    }
    let start = end - suffix.len();
    let ghost window = chars@.take(end as int).subrange(start as int, end as int);
    let mut i: usize = 0;
    while i < suffix.len()
        invariant
            i <= suffix@.len(),
            start + suffix@.len() == end <= chars@.len(),
            window == chars@.take(end as int).subrange(start as int, end as int),
            forall|j: int| 0 <= j < i ==> suffix@[j] == chars@[start + j],
        decreases suffix.len() - i,
    {
        if suffix[i] != chars[start + i] {
            assert(window[i as int] == chars@[start + i]);
            return false;
        }
        i += 1;
    }
    assert(suffix@ =~= window);
    true
}

/// How many of the first `end` characters are left once trailing
/// repetitions of `suffix` are gone.
fn trimmed_len(chars: &[char], end: usize, suffix: &[char]) -> (kept: usize)
    requires
        end <= chars@.len(),
        suffix@.len() > 0,
    ensures
        kept <= end,
        chars@.take(kept as int) == trim_end(chars@.take(end as int), suffix@),
{
    let mut kept = end;
    while ends_with(chars, kept, suffix)
        invariant
            kept <= end <= chars@.len(),
            suffix@.len() > 0,
            trim_end(chars@.take(kept as int), suffix@) == trim_end(
                chars@.take(end as int),
                suffix@,
            ),
        decreases kept,
    {
        proof {
            assert(chars@.take(kept as int).take(kept - suffix@.len()) =~= chars@.take(
                kept - suffix@.len(),
            ));
        }
        kept -= suffix.len();
    }
    kept
}

/// Brings an API address into the form that is stored.
pub fn normalize_base_url(api_url: &str) -> (base_url: String)
    ensures
        base_url@ == api_base_url(api_url@),
{
    let chars = chars_of(api_url);
    let slash = chars_of("/");
    let api = chars_of("/api/v1");
    proof {
        reveal_strlit("/");
        reveal_strlit("/api/v1");
        assert(chars@.take(chars@.len() as int) =~= chars@);
    }
    let without_slashes = trimmed_len(chars.as_slice(), chars.len(), slash.as_slice());
    let kept = trimmed_len(chars.as_slice(), without_slashes, api.as_slice());
    proof {
        assert(chars@.take(kept as int) =~= chars@.subrange(0, kept as int));
    }
    let mut base_url = String::from_str(api_url.substring_char(0, kept));
    base_url.append("/api/v1");
    base_url
}

/// Calls `hostname::get`. Trusted for nothing: the name depends on the
/// machine, and an error or a name that is not Unicode yields an empty or a
/// patched text.
#[verifier::external_body]
fn host_name() -> (name: String) {
    hostname::get().unwrap_or_default().to_string_lossy().to_string()
}

/// The identifier of a device from its host name.
pub fn device_id_from(host: &str) -> (id: String)
    ensures
        id@ == device_id_for(host@),
{
    let mut id = String::from_str("desktop_");
    id.append(host);
    id
}

/// The identifier of this device: `desktop_` and the host name.
pub fn get_device_id() -> (id: String)
    ensures
        exists|host: Seq<char>| id@ == device_id_for(host),
{
    let host = host_name();
    let id = device_id_from(host.as_str());
    assert(id@ == device_id_for(host@));
    id
}

/// The name of this device: its host name.
pub fn get_device_name() -> (name: String) {
    host_name()
}

/// The settings for the remote API.
pub struct ApiConfig {
    pub base_url: String,
    pub token: String,
    pub device_id: String,
    pub device_name: String,
    pub is_configured: bool,
}

/// What an `ApiConfig` holds.
pub ghost struct ConfigModel {
    pub base_url: Seq<char>,
    pub token: Seq<char>,
    pub device_id: Seq<char>,
    pub device_name: Seq<char>,
    pub is_configured: bool,
}

impl View for ApiConfig {
    type V = ConfigModel;

    open spec fn view(&self) -> ConfigModel {
        ConfigModel {
            base_url: self.base_url@,
            token: self.token@,
            device_id: self.device_id@,
            device_name: self.device_name@,
            is_configured: self.is_configured,
        }
    }
}

impl ApiConfig {
    /// The settings of a device before anything is configured.
    pub fn new(device_id: String, device_name: String) -> (config: ApiConfig)
        ensures
            config@ == (ConfigModel {
                base_url: Seq::empty(),
                token: Seq::empty(),
                device_id: device_id@,
                device_name: device_name@,
                is_configured: false,
            }),
    {
        ApiConfig {
            base_url: String::new(),
            token: String::new(),
            device_id,
            device_name,
            is_configured: false,
        }
    }

    /// The settings of this device before anything is configured.
    pub fn for_this_device() -> (config: ApiConfig)
        ensures
            config@.base_url == Seq::<char>::empty(),
            config@.token == Seq::<char>::empty(),
            !config@.is_configured,
            exists|host: Seq<char>| config@.device_id == device_id_for(host),
    {
        ApiConfig::new(get_device_id(), get_device_name())
    }

    /// Stores the address, normalized, and the token. The device keeps its
    /// identity.
    pub fn configure(&mut self, api_url: &str, token: String)
        ensures
            final(self)@ == (ConfigModel {
                base_url: api_base_url(api_url@),
                token: token@,
                is_configured: true,
                ..old(self)@
            }),
    {
        self.base_url = normalize_base_url(api_url);
        self.token = token;
        self.is_configured = true;
    }

    /// Whether an address and a token have been stored.
    pub fn is_configured(&self) -> (configured: bool)
        ensures
            configured == self@.is_configured,
    {
        self.is_configured
    }

    /// Forgets the address and the token. The device keeps its identity.
    pub fn clear(&mut self)
        ensures
            final(self)@ == (ConfigModel {
                base_url: Seq::empty(),
                token: Seq::empty(),
                is_configured: false,
                ..old(self)@
            }),
    {
        self.base_url = String::new();
        self.token = String::new();
        self.is_configured = false;
    }
}

/// A stored base URL ends in exactly one `/api/v1`, with no slash before it.
pub proof fn lemma_base_url_shape(api_url: Seq<char>)
    ensures
        "/api/v1"@.is_suffix_of(api_base_url(api_url)),
        !"/api/v1"@.is_suffix_of(
            api_base_url(api_url).take(api_base_url(api_url).len() - "/api/v1"@.len()),
        ),
{
    let stem = trim_end(trim_end(api_url, "/"@), "/api/v1"@);
    reveal_strlit("/api/v1");
    lemma_trim_end_has_no_suffix(trim_end(api_url, "/"@), "/api/v1"@);
    assert((stem + "/api/v1"@).subrange(stem.len() as int, stem.len() as int + 7) =~= "/api/v1"@);
    assert((stem + "/api/v1"@).take(stem.len() as int) =~= stem);
}

/// What is left after trimming no longer ends with the suffix, and is the
/// start of the text.
pub proof fn lemma_trim_end_has_no_suffix(text: Seq<char>, suffix: Seq<char>)
    requires
        suffix.len() > 0,
    ensures
        !suffix.is_suffix_of(trim_end(text, suffix)),
        trim_end(text, suffix).is_prefix_of(text),
    decreases text.len(),
{
    if suffix.is_suffix_of(text) {
        let shorter = text.take(text.len() - suffix.len());
        lemma_trim_end_has_no_suffix(shorter, suffix);
        let kept = trim_end(shorter, suffix);
        assert(kept =~= text.subrange(0, kept.len() as int));
    } else {
        assert(text =~= text.subrange(0, text.len() as int));
    }
}

/// Normalizing what is already normal changes nothing.
pub proof fn lemma_base_url_is_stable(api_url: Seq<char>)
    ensures
        api_base_url(api_base_url(api_url)) == api_base_url(api_url),
{
    reveal_strlit("/api/v1");
    reveal_strlit("/");
    let api = "/api/v1"@;
    let slash = "/"@;
    let stem = trim_end(trim_end(api_url, slash), api);
    let url = stem + api;
    lemma_trim_end_has_no_suffix(trim_end(api_url, slash), api);
    // The normal form does not end in a slash, so the first trimming keeps it.
    assert(url.last() == '1');
    assert(!slash.is_suffix_of(url)) by {
        if slash.is_suffix_of(url) {
            assert(url.subrange(url.len() - 1, url.len() as int)[0] == '1');
            assert(slash[0] == '/');
        }
    }
    assert(trim_end(url, slash) == url);
    // The second trimming takes the one `/api/v1` off and stops at the stem.
    assert(api.is_suffix_of(url)) by {
        assert(url.subrange(url.len() - 7, url.len() as int) =~= api);
    }
    assert(url.take(url.len() - api.len()) =~= stem);
    assert(trim_end(url, api) == trim_end(stem, api));
    assert(trim_end(stem, api) == stem);
}

} // verus!
