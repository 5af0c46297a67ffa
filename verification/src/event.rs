//! The canonical outbound event and the per-platform inbound channels.

use vstd::prelude::*;

use crate::scheme::ValidatedDeepLink;
use crate::scheme::is_deep_link;

verus! {

/// The name under which every accepted deep link is republished, whichever
/// platform delivered it.
pub open spec fn outbound_name() -> Seq<char> {
    "deep-link"@
}

/// The outbound event name as a string slice.
pub fn outbound_event_name() -> (r: &'static str)
    ensures
        r@ == outbound_name(),
{
    "deep-link"
}

/// The two mobile platforms whose native intent channels feed the bridge.
#[derive(Clone, Copy, PartialEq, Eq, Structural, Debug)]
pub enum Platform {
    Android,
    Ios,
}

/// The name of the host event that carries a platform's native intent
/// notifications.
pub open spec fn inbound_name(p: Platform) -> Seq<char> {
    match p {
        Platform::Android => "android-intent"@,
        Platform::Ios => "ios-url"@,
    }
}

/// The inbound event name of a platform as a string slice.
pub fn inbound_event_name(p: Platform) -> (r: &'static str)
    ensures
        r@ == inbound_name(p),
{
    match p {
        Platform::Android => "android-intent",
        Platform::Ios => "ios-url",
    }
}

/// The one outbound event: the fixed `deep-link` name and a validated URL,
/// carried verbatim.
#[derive(Debug)]
pub struct CanonicalDeepLinkEvent {
    pub name: String,
    pub url: String,
}

impl CanonicalDeepLinkEvent {
    /// A well-formed event carries the fixed outbound name and a URL of the
    /// registered scheme: no partially validated value is ever emitted.
    pub open spec fn wf(&self) -> bool {
        &&& self.name@ == outbound_name()
        &&& is_deep_link(self.url@)
    }

    /// Package a validated deep link as the canonical outbound event.
    pub fn new(link: ValidatedDeepLink) -> (e: CanonicalDeepLinkEvent)
        requires
            link.wf(),
        ensures
            e.wf(),
            e.url@ == link@,
    {
        CanonicalDeepLinkEvent { name: outbound_event_name().to_owned(), url: link.into_url() }
    }
}

} // verus!
