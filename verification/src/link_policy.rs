//! The link policy: classification of outbound navigation attempts.
//!
//! The embedded page may try to navigate away in two ways: an explicit
//! `window.open` call, and a click on (or inside) an anchor element.  Both
//! entry points apply one rule to the target URL:
//!
//! 1. a URL is *external* iff its scheme is `http` or `https` (checked as
//!    the byte prefix `http://` or `https://`);
//! 2. an external URL is *allowlisted* iff it contains the byte substring
//!    `web.whatsapp.com`; allowlisted URLs navigate normally inside the
//!    embedded view;
//! 3. any other external URL is suppressed in the view and handed to the
//!    host bridge, which forwards it to the OS default browser;
//! 4. non-external URLs (`mailto:`, relative paths, `javascript:`) pass
//!    through untouched.
//!
//! The substring test deliberately mirrors the shipped behaviour: a URL such
//! as `https://evil.example/?x=web.whatsapp.com` counts as allowlisted.  This
//! is a known ambiguity of the policy, preserved here rather than silently
//! replaced by exact host matching.
//!
//! URLs are modelled as their UTF-8 bytes ([`vstd::utf8::encode_utf8`] of the
//! string's characters), which is what the byte-prefix and byte-substring
//! rules above inspect.

use vstd::prelude::*;
use vstd::utf8::encode_utf8;

verus! {

/// `p` is a prefix of `s`.
pub open spec fn seq_starts_with(s: Seq<u8>, p: Seq<u8>) -> bool {
    p.len() <= s.len() && s.subrange(0, p.len() as int) == p
}

/// `p` occurs in `s` starting at index `i`.
pub open spec fn matches_at(s: Seq<u8>, p: Seq<u8>, i: int) -> bool {
    0 <= i && i + p.len() <= s.len() && s.subrange(i, i + p.len() as int) == p
}

/// `p` occurs somewhere in `s`.
pub open spec fn seq_contains(s: Seq<u8>, p: Seq<u8>) -> bool {
    exists|i: int| matches_at(s, p, i)
}

/// The URL leaves the embedded origin: its scheme is `http` or `https`.
pub open spec fn is_external_url(url: Seq<u8>) -> bool {
    ||| seq_starts_with(url, encode_utf8("http://"@))
    ||| seq_starts_with(url, encode_utf8("https://"@))
}

/// The URL is exempt from redirection and may navigate inside the view.
pub open spec fn is_allowlisted_url(url: Seq<u8>) -> bool {
    seq_contains(url, encode_utf8("web.whatsapp.com"@))
}

/// What the interception layer does with a navigation attempt.
#[derive(Clone, Copy, Debug, PartialEq, Eq, Structural)]
pub enum NavDecision {
    /// Suppress the in-view navigation and hand the URL to the host bridge.
    OpenExternally,
    /// Leave the attempt to the view's default handling.
    PassThrough,
}

/// The classification rule, identical for both entry points.
pub open spec fn spec_classify(url: Seq<u8>) -> NavDecision {
    if is_external_url(url) && !is_allowlisted_url(url) {
        NavDecision::OpenExternally
    } else {
        NavDecision::PassThrough
    }
}

/// Does `p@` prefix `s@`?
fn bytes_starts_with(s: &[u8], p: &[u8]) -> (r: bool)
    ensures
        r == seq_starts_with(s@, p@),
{
    if p.len() > s.len() {
        return false;
    }
    let mut i: usize = 0;
    while i < p.len()
        invariant
            i <= p.len(),
            p.len() <= s.len(),
            forall|j: int| 0 <= j < i ==> s@[j] == p@[j],
        decreases p.len() - i,
    {
        if s[i] != p[i] {
            assert(s@.subrange(0, p@.len() as int)[i as int] != p@[i as int]);
            return false;
        }
        i = i + 1;
    }
    assert(s@.subrange(0, p@.len() as int) =~= p@);
    true
}

/// Does `p@` occur in `s@` at index `i`?
fn bytes_match_at(s: &[u8], p: &[u8], i: usize) -> (r: bool)
    requires
        i + p.len() <= s.len(),
    ensures
        r == matches_at(s@, p@, i as int),
{
    let mut j: usize = 0;
    while j < p.len()
        invariant
            j <= p.len(),
            i + p.len() <= s.len(),
            forall|k: int| 0 <= k < j ==> s@[i + k] == p@[k],
        decreases p.len() - j,
    {
        if s[i + j] != p[j] {
            assert(s@.subrange(i as int, i + p@.len() as int)[j as int] != p@[j as int]);
            return false;
        }
        j = j + 1;
    }
    assert(s@.subrange(i as int, i + p@.len() as int) =~= p@);
    true
}

/// Does `p@` occur anywhere in `s@`?
fn bytes_contains(s: &[u8], p: &[u8]) -> (r: bool)
    ensures
        r == seq_contains(s@, p@),
{
    if p.len() > s.len() {
        assert(forall|i: int| !matches_at(s@, p@, i));
        return false;
    }
    if p.len() == 0 {
        assert(s@.subrange(0, 0) =~= p@);
        assert(matches_at(s@, p@, 0));
        return true;
    }
    let last: usize = s.len() - p.len();
    let mut i: usize = 0;
    while i <= last
        invariant
            last == s.len() - p.len(),
            1 <= p.len() <= s.len(),
            i <= last + 1,
            forall|j: int| 0 <= j < i ==> !matches_at(s@, p@, j),
        decreases last - i + 1,
    {
        if bytes_match_at(s, p, i) {
            return true;
        }
        i = i + 1;
    }
    assert(forall|j: int| matches_at(s@, p@, j) ==> 0 <= j <= last);
    false
}

/// Classifies one navigation target.
///
/// Returns [`NavDecision::OpenExternally`] exactly when the URL's UTF-8
/// bytes start with `http://` or `https://` and do not contain
/// `web.whatsapp.com`; every other URL passes through untouched.
pub fn classify_navigation(url: &str) -> (d: NavDecision)
    ensures
        d == spec_classify(encode_utf8(url@)),
{
    let s = url.as_bytes();
    let external = bytes_starts_with(s, "http://".as_bytes()) || bytes_starts_with(
        s,
        "https://".as_bytes(),
    );
    if external && !bytes_contains(s, "web.whatsapp.com".as_bytes()) {
        NavDecision::OpenExternally
    } else {
        NavDecision::PassThrough
    }
}

/// What the replacement `window.open` does with one call.
#[derive(Clone, Copy, Debug, PartialEq, Eq, Structural)]
pub enum WindowOpenOutcome {
    /// Hand the URL to the host bridge and report no new browsing context
    /// (the caller receives a null handle).
    Intercept,
    /// Delegate the call to the view's original `window.open`.
    Forward,
}

/// Decides one `window.open(url, ...)` call.
///
/// A call without a URL is always forwarded; one with a URL is intercepted
/// exactly when the classification rule routes that URL externally.
pub fn handle_window_open(url: Option<&str>) -> (o: WindowOpenOutcome)
    ensures
        (o is Intercept) <==> (url matches Some(u) && spec_classify(encode_utf8(u@))
            is OpenExternally),
{
    match url {
        None => WindowOpenOutcome::Forward,
        Some(u) => {
            match classify_navigation(u) {
                NavDecision::OpenExternally => WindowOpenOutcome::Intercept,
                NavDecision::PassThrough => WindowOpenOutcome::Forward,
            }
        },
    }
}

/// One element on the ancestor chain of a click target, innermost first.
#[derive(Clone, Debug)]
pub struct DomNode {
    /// The element is an anchor (`<a>`).
    pub is_anchor: bool,
    /// The element's resolved `href`, absent when the attribute is missing.
    pub href: Option<String>,
}

/// The first anchor on the chain, walking outward from the click target;
/// the walk stops at the first anchor whether or not it carries an `href`.
pub open spec fn first_anchor(chain: Seq<DomNode>) -> Option<DomNode>
    decreases chain.len(),
{
    if chain.len() == 0 {
        None
    } else if chain[0].is_anchor {
        Some(chain[0])
    } else {
        first_anchor(chain.drop_first())
    }
}

/// The URL a click resolves to: the `href` of the first anchor on the
/// chain, if that anchor has one.
pub open spec fn click_target_url(chain: Seq<DomNode>) -> Option<Seq<u8>> {
    match first_anchor(chain) {
        Some(node) => match node.href {
            Some(h) => Some(encode_utf8(h@)),
            None => None,
        },
        None => None,
    }
}

/// What the capture-phase click handler does with one click.
#[derive(Clone, Debug)]
pub enum ClickOutcome {
    /// Cancel the default navigation, stop propagation, and hand the URL
    /// to the host bridge.
    Intercept { url: String },
    /// Leave the click to default handling.
    Default,
}

/// Decides one document click, given the ancestor chain of the event
/// target (innermost element first, document root last).
///
/// The click is intercepted exactly when it resolves to an anchor URL that
/// the classification rule routes externally; the intercepted URL is that
/// anchor's `href`.
pub fn handle_click(chain: &Vec<DomNode>) -> (o: ClickOutcome)
    ensures
        (o is Intercept) <==> (click_target_url(chain@) matches Some(u) && spec_classify(u)
            is OpenExternally),
        o matches ClickOutcome::Intercept { url } ==> click_target_url(chain@) == Some(
            encode_utf8(url@),
        ),
{
    let n = chain.len();
    let mut i: usize = 0;
    proof {
        assert(chain@.skip(0) =~= chain@);
    }
    while i < n
        invariant
            n == chain@.len(),
            i <= n,
            first_anchor(chain@) == first_anchor(chain@.skip(i as int)),
        decreases n - i,
    {
        proof {
            assert(chain@.skip(i as int)[0] == chain@[i as int]);
            assert(chain@.skip(i as int).drop_first() =~= chain@.skip(i as int + 1));
        }
        if chain[i].is_anchor {
            match &chain[i].href {
                Some(h) => {
                    match classify_navigation(h.as_str()) {
                        NavDecision::OpenExternally => {
                            return ClickOutcome::Intercept { url: h.clone() };
                        },
                        NavDecision::PassThrough => {
                            return ClickOutcome::Default;
                        },
                    }
                },
                None => {
                    return ClickOutcome::Default;
                },
            }
        }
        i = i + 1;
    }
    assert(chain@.skip(n as int) =~= Seq::<DomNode>::empty());
    ClickOutcome::Default
}

/// Delay between checks for the host bridge's API surface, in milliseconds.
pub const BRIDGE_POLL_DELAY_MS: u32 = 100;

/// What the deferred installer does on one readiness check.
#[derive(Clone, Copy, Debug, PartialEq, Eq, Structural)]
pub enum BridgePollAction {
    /// The bridge API is present: install the interception layer now,
    /// exactly once for this content load.
    Install,
    /// The bridge API is not present yet: check again after the given
    /// delay.
    RetryAfter { delay_ms: u32 },
}

/// Decides one poll of the host bridge's readiness marker.  Installation
/// waits until the marker is present; an absent marker schedules one more
/// check after [`BRIDGE_POLL_DELAY_MS`].
pub fn bridge_poll_step(bridge_ready: bool) -> (a: BridgePollAction)
    ensures
        a == (if bridge_ready {
            BridgePollAction::Install
        } else {
            BridgePollAction::RetryAfter { delay_ms: BRIDGE_POLL_DELAY_MS }
        }),
{
    if bridge_ready {
        BridgePollAction::Install
    } else {
        BridgePollAction::RetryAfter { delay_ms: BRIDGE_POLL_DELAY_MS }
    }
}

} // verus!
