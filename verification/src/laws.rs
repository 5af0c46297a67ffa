//! What holds of the chain as a whole, proved once and for all.

use vstd::prelude::*;

use crate::bridge::batch_emitted_urls;
use crate::bridge::emitted_urls;
use crate::payload::url_field_of;
use crate::scheme::is_deep_link;

verus! {

/// A payload without a usable `url` field — unparsable, key missing, value
/// not a string — makes the chain emit nothing.
pub proof fn lemma_no_url_no_event(payload: Seq<char>)
    ensures
        url_field_of(payload) is None ==> emitted_urls(payload).len() == 0,
{
}

/// A URL that does not start with the registered scheme prefix makes the
/// chain emit nothing: the same native channel may carry unrelated intents,
/// and those are dropped silently.
pub proof fn lemma_foreign_scheme_dropped(payload: Seq<char>, u: Seq<char>)
    ensures
        url_field_of(payload) == Some(u) && !is_deep_link(u) ==> emitted_urls(payload).len()
            == 0,
{
}

/// A URL that starts with the registered scheme prefix makes the chain emit
/// exactly one event, carrying the URL verbatim: no normalization, no
/// rewriting.
pub proof fn lemma_deep_link_emitted_once(payload: Seq<char>, u: Seq<char>)
    ensures
        url_field_of(payload) == Some(u) && is_deep_link(u) ==> emitted_urls(payload)
            =~= seq![u],
{
}

/// Replay: a run of identical payloads emits one event per accepted copy,
/// each identical — the chain deduplicates nothing.  For a payload with an
/// accepted URL that is one event per copy; for any other payload, none.
pub proof fn lemma_replay(payloads: Seq<Seq<char>>, p: Seq<char>)
    requires
        forall|i: int| 0 <= i < payloads.len() ==> payloads[i] == p,
    ensures
        emitted_urls(p).len() <= 1,
        batch_emitted_urls(payloads).len() == payloads.len() * emitted_urls(p).len(),
        forall|i: int|
            0 <= i < batch_emitted_urls(payloads).len() ==> batch_emitted_urls(payloads)[i]
                == emitted_urls(p)[0],
    decreases payloads.len(),
{
    if payloads.len() > 0 {
        lemma_replay(payloads.drop_last(), p);
        assert(payloads.last() == p);
        assert((payloads.len() - 1) * emitted_urls(p).len() + emitted_urls(p).len()
            == payloads.len() * emitted_urls(p).len()) by (nonlinear_arith);
    }
}

} // verus!
