//! Links that are opened in the system browser.

use vstd::prelude::*;
use vstd::string::{StrSliceExecFns, StringExecFns};

verus! {

/// Whether a link names its scheme, `http://` or `https://`.
pub open spec fn has_web_scheme(link: Seq<char>) -> bool {
    "http://"@.is_prefix_of(link) || "https://"@.is_prefix_of(link)
}

/// The address that a link is opened at: the link itself where it names its
/// scheme, and else the link as an `https://` address.
pub open spec fn external_address(link: Seq<char>) -> Seq<char> {
    if has_web_scheme(link) {
        link
    } else {
        "https://"@ + link
    }
}

/// Whether `text` begins with `prefix`.
pub fn starts_with(text: &str, prefix: &str) -> (found: bool)
    ensures
        found == prefix@.is_prefix_of(text@),
{
    let text_len = text.unicode_len();
    let prefix_len = prefix.unicode_len();
    if prefix_len > text_len {
        return false;
    }
    let mut at: usize = 0;
    while at < prefix_len
        invariant
            at <= prefix_len <= text_len,
            text_len == text@.len(),
            prefix_len == prefix@.len(),
            forall|i: int| 0 <= i < at ==> text@[i] == prefix@[i],
        decreases prefix_len - at,
    {
        if text.get_char(at) != prefix.get_char(at) {
            assert(text@.subrange(0, prefix@.len() as int)[at as int] != prefix@[at as int]);
            return false;
        }
        at += 1;
    }
    assert(prefix@ =~= text@.subrange(0, prefix@.len() as int));
    true
}

/// The address to open for a link that a caller gave.
pub fn external_url(link: String) -> (address: String)
    ensures
        address@ == external_address(link@),
{
    if starts_with(link.as_str(), "http://") || starts_with(link.as_str(), "https://") {
        link
    } else {
        let mut address = String::from_str("https://");
        address.append(link.as_str());
        address
    }
}

} // verus!
