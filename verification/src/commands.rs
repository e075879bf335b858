//! What the application's commands decide before they act.

use crate::license::LicenseInfo;
use crate::text::{to_chars, utf8};
use vstd::prelude::*;
use vstd::string::StringSliceAdditionalSpecFns;
use vstd::utf8::{decode_utf8, is_char_boundary};

verus! {

/// The application's state, as shown to its user.
#[derive(Debug)]
pub struct AppConfig {
    pub version: String,
    pub api_key_configured: bool,
    pub license_status: String,
    pub tier: String,
}

impl AppConfig {
    /// The state of version `version`, with or without a stored API key, under
    /// the entitlement `info`.
    pub fn new(version: String, api_key_configured: bool, info: &LicenseInfo) -> (config: AppConfig)
        ensures
            config.version == version,
            config.api_key_configured == api_key_configured,
            config.license_status@ == info@.status,
            config.tier@ == info@.tier,
    {
        AppConfig {
            version,
            api_key_configured,
            license_status: info.status.clone(),
            tier: info.tier.clone(),
        }
    }
}

/// Whether `url` begins with `http://` or `https://`.
pub open spec fn is_web_url(url: Seq<char>) -> bool {
    "http://"@.is_prefix_of(url) || "https://"@.is_prefix_of(url)
}

/// Why a URL is not opened.
#[derive(Clone, Copy, Debug, PartialEq, Eq, Structural)]
pub enum UrlError {
    /// The URL is neither `http` nor `https`.
    InvalidProtocol,
}

fn has_prefix(text: &Vec<char>, prefix: &Vec<char>) -> (yes: bool)
    ensures
        yes == prefix@.is_prefix_of(text@),
{
    if prefix.len() > text.len() {
        return false;
    }
    let mut i: usize = 0;
    while i < prefix.len()
        invariant
            i <= prefix.len() <= text.len(),
            forall|k: int| 0 <= k < i ==> text@[k] == prefix@[k],
        decreases prefix.len() - i,
    {
        if text[i] != prefix[i] {
            proof {
                if prefix@.is_prefix_of(text@) {
                    assert(text@.subrange(0, prefix@.len() as int)[i as int] == prefix@[i as int]);
                }
            }
            return false;
        }
        i += 1;
    }
    assert(text@.subrange(0, prefix@.len() as int) =~= prefix@);
    true
}

/// Checks that `url` may be opened outside the application: only `http` and
/// `https` addresses are.
pub fn open_external_url(url: &str) -> (checked: Result<(), UrlError>)
    ensures
        checked is Ok <==> is_web_url(url@),
{
    let chars = to_chars(url);
    if has_prefix(&chars, &to_chars("http://")) || has_prefix(&chars, &to_chars("https://")) {
        Ok(())
    } else {
        Err(UrlError::InvalidProtocol)
    }
}

/// `text` cut to at most `max_len` bytes: where it is longer, its first
/// `max_len - 3` bytes, then three dots.
pub open spec fn truncated(text: Seq<char>, max_len: int) -> Seq<char> {
    let bytes = utf8(text);
    if bytes.len() > max_len {
        decode_utf8(bytes.subrange(0, max_len - 3)) + "..."@
    } else {
        text
    }
}

/// Cuts `text` to at most `max_len` bytes, the last three of them dots where
/// anything was cut. The cut must fall between two characters, and there must
/// be room for the dots.
pub fn truncate_text(text: &str, max_len: usize) -> (cut: String)
    requires
        utf8(text@).len() > max_len ==> max_len >= 3 && is_char_boundary(
            utf8(text@),
            max_len - 3,
        ),
    ensures
        cut@ == truncated(text@, max_len as int),
{
    if text.as_bytes().len() > max_len {
        let (head, _) = text.split_at(max_len - 3);
        proof {
            vstd::utf8::encode_utf8_decode_utf8(head@);
            assert(head.spec_bytes() == utf8(head@));
            assert(text.spec_bytes() == utf8(text@));
            assert(head.spec_bytes() == text.spec_bytes().subrange(0, max_len - 3));
            assert(head@ == decode_utf8(utf8(text@).subrange(0, max_len - 3)));
        }
        let mut cut = String::from_str(head);
        cut.append("...");
        cut
    } else {
        String::from_str(text)
    }
}

} // verus!
