//! The deep-link chain: payload parsing, scheme validation, emission.

use vstd::prelude::*;

use crate::event::CanonicalDeepLinkEvent;
use crate::event::Platform;
use crate::payload::extract_url_field;
use crate::payload::url_field_of;
use crate::scheme::ValidatedDeepLink;
use crate::scheme::is_deep_link;

verus! {

/// The URLs that one raw payload makes the chain emit: the value of its
/// `url` field when that value starts with the registered scheme prefix,
/// verbatim and exactly once, and nothing in every other case.
pub open spec fn emitted_urls(payload: Seq<char>) -> Seq<Seq<char>> {
    match url_field_of(payload) {
        Some(u) => if is_deep_link(u) {
            seq![u]
        } else {
            Seq::empty()
        },
        None => Seq::empty(),
    }
}

/// The URLs that a run of payloads makes the chain emit, each payload in
/// order of arrival, with no deduplication and no buffering across events.
pub open spec fn batch_emitted_urls(payloads: Seq<Seq<char>>) -> Seq<Seq<char>>
    decreases payloads.len(),
{
    if payloads.len() == 0 {
        Seq::<Seq<char>>::empty()
    } else {
        batch_emitted_urls(payloads.drop_last()) + emitted_urls(payloads.last())
    }
}

/// The events carry exactly the given URLs, in order, each under the fixed
/// outbound name.
pub open spec fn events_match(events: Seq<CanonicalDeepLinkEvent>, urls: Seq<Seq<char>>) -> bool {
    &&& events.len() == urls.len()
    &&& forall|i: int|
        0 <= i < events.len() ==> (#[trigger] events[i]).wf() && events[i].url@ == urls[i]
}

/// The emitter's gate: turn the outcome of the payload parser into the
/// outbound events.  A URL of the registered scheme becomes exactly one
/// event carrying it verbatim; a missing or foreign URL becomes none.
pub fn events_for_url_field(url_field: Option<String>) -> (events: Vec<CanonicalDeepLinkEvent>)
    ensures
        match url_field {
            Some(u) => if is_deep_link(u@) {
                events@.len() == 1 && events@[0].wf() && events@[0].url@ == u@
            } else {
                events@.len() == 0
            },
            None => events@.len() == 0,
        },
{
    let mut events: Vec<CanonicalDeepLinkEvent> = Vec::new();
    match url_field {
        Some(u) => {
            match ValidatedDeepLink::new(u) {
                Some(link) => {
                    events.push(CanonicalDeepLinkEvent::new(link));
                },
                None => {},
            }
        },
        None => {},
    }
    events
}

/// The full chain for one raw payload: parse, validate, emit.  Every
/// failure on the way — unparsable payload, missing or non-string `url`
/// field, foreign scheme — is recovered silently as "nothing to do".
pub fn process_payload(payload: &str) -> (events: Vec<CanonicalDeepLinkEvent>)
    ensures
        events_match(events@, emitted_urls(payload@)),
{
    let url_field = extract_url_field(payload);
    events_for_url_field(url_field)
}

/// The views of a run of payloads.
pub open spec fn views_of(payloads: Seq<String>) -> Seq<Seq<char>> {
    payloads.map_values(|p: String| p@)
}

/// A whole run: each payload in order through the full chain, the emitted
/// events concatenated in order of arrival.
pub fn process_batch(payloads: &Vec<String>) -> (events: Vec<CanonicalDeepLinkEvent>)
    ensures
        events_match(events@, batch_emitted_urls(views_of(payloads@))),
{
    let ghost all: Seq<Seq<char>> = views_of(payloads@);
    let mut events: Vec<CanonicalDeepLinkEvent> = Vec::new();
    let n = payloads.len();
    let mut k: usize = 0;
    while k < n
        invariant
            n == payloads@.len(),
            k <= n,
            all == views_of(payloads@),
            events_match(events@, batch_emitted_urls(all.take(k as int))),
        decreases n - k,
    {
        let mut one = process_payload(payloads[k].as_str());
        proof {
            let done: Seq<Seq<char>> = all.take(k as int);
            let next: Seq<Seq<char>> = all.take(k + 1 as int);
            assert(next.drop_last() =~= done);
            assert(next.last() == payloads@[k as int]@);
        }
        events.append(&mut one);
        k += 1;
    }
    proof {
        assert(all.take(n as int) =~= all);
    }
    events
}

/// Registration state of one platform listener.  Registration happens once
/// during application setup and is never torn down: there is no terminal
/// state short of process exit.
#[derive(Clone, Copy, PartialEq, Eq, Structural, Debug)]
pub enum ListenerState {
    Unregistered,
    Registered,
}

/// One per-platform listener: Unregistered, then Registered once and for
/// all, then triggered any number of times.  Each trigger runs the full
/// chain for one payload; the listener itself keeps no state across
/// triggers.
pub struct PlatformListener {
    pub platform: Platform,
    pub state: ListenerState,
}

impl PlatformListener {
    /// A fresh listener for one platform, not yet registered.
    pub fn new(platform: Platform) -> (r: PlatformListener)
        ensures
            r.platform == platform,
            r.state is Unregistered,
    {
        PlatformListener { platform, state: ListenerState::Unregistered }
    }

    /// Register with the host's event-listening facility.  Registering an
    /// already registered listener changes nothing: the state machine has
    /// no way back to Unregistered.
    pub fn register(&mut self)
        ensures
            final(self).platform == old(self).platform,
            final(self).state is Registered,
    {
        self.state = ListenerState::Registered;
    }

    /// One trigger: the host delivered a raw intent payload on this
    /// platform's inbound channel; run the full chain on it.
    pub fn on_trigger(&self, payload: &str) -> (events: Vec<CanonicalDeepLinkEvent>)
        requires
            self.state is Registered,
        ensures
            events_match(events@, emitted_urls(payload@)),
    {
        process_payload(payload)
    }
}

} // verus!
