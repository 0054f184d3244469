//! Engine-wide guarantees, each proved once and for all inputs.

use vstd::prelude::*;

use crate::code_map::CodeMap;
use crate::code_map::spec_suppressed;
use crate::engine::Engine;
use crate::engine::spec_should_send;
use crate::report::ReportLayout;
use crate::report::active_codes;
use crate::report::lemma_active_codes_none;

verus! {

/// For every snapshot, the synthesized report has the constant length the
/// layout configures: two lead bytes plus the slot count.
pub proof fn lemma_report_constant_length(e: Engine, states: Seq<bool>)
    requires
        e.wf(),
        states.len() == e.map.codes@.len(),
    ensures
        e.spec_report(states).len() == e.layout.spec_size(),
{
}

/// When every channel is released, the synthesized report is the
/// all-released report — whatever any earlier report held, no stale code
/// can survive into it.
pub proof fn lemma_monotonic_clearing(e: Engine, states: Seq<bool>)
    requires
        e.wf(),
        states.len() == e.map.codes@.len(),
        forall|i: int| 0 <= i < states.len() ==> !states[i],
    ensures
        e.spec_report(states) == e.layout.spec_blank(),
{
    let codes = e.map.spec_translate(states);
    assert(forall|i: int| 0 <= i < codes.len() ==> codes[i] == e.layout.sentinel);
    lemma_active_codes_none(codes, e.layout.sentinel);
    assert(e.spec_report(states) =~= e.layout.spec_blank());
}

/// The truncation policy is a fixed function of the active set: the slots
/// carry exactly the lowest-index active codes, in channel order, and when
/// the active codes outnumber the slots the trailing — highest-index — ones
/// are the ones dropped, while every slot past the active codes holds the
/// sentinel.
pub proof fn lemma_truncation_policy(layout: ReportLayout, codes: Seq<u8>)
    requires
        layout.wf(),
    ensures
        forall|k: int|
            0 <= k < layout.slots && k < active_codes(codes, layout.sentinel).len()
                ==> layout.spec_assemble(codes)[2 + k] == active_codes(codes, layout.sentinel)[k],
        forall|k: int|
            active_codes(codes, layout.sentinel).len() <= k < layout.slots ==> #[trigger] layout.spec_assemble(
                codes,
            )[2 + k] == layout.sentinel,
{
}

/// When the winner of an exclusive pair is active, the loser's slot input is
/// the sentinel — its code is never emitted, however the loser's own state
/// bounced — and the winner, unless something suppresses the winner itself,
/// emits its code.
pub proof fn lemma_exclusive_priority(m: CodeMap, states: Seq<bool>, k: int)
    requires
        m.wf(),
        states.len() == m.codes@.len(),
        0 <= k < m.pairs@.len(),
        states[m.pairs@[k].winner as int],
    ensures
        m.spec_translate(states)[m.pairs@[k].loser as int] == m.sentinel,
        !spec_suppressed(m.pairs@, states, m.pairs@[k].winner as int) ==> m.spec_translate(
            states,
        )[m.pairs@[k].winner as int] == m.codes@[m.pairs@[k].winner as int],
{
    assert(m.pairs@[k].loser == m.pairs@[k].loser as int && states[m.pairs@[k].winner as int]);
    assert(spec_suppressed(m.pairs@, states, m.pairs@[k].loser as int));
}

/// Change detection is idempotent: its verdict is a function of the two
/// buffers alone, so asking twice against an unchanged cache returns the
/// same boolean both times. The hypotheses are exactly what
/// [`crate::report::changed`] ensures of each call.
pub proof fn lemma_change_detection_repeatable(
    candidate: Seq<u8>,
    cache: Seq<u8>,
    first: bool,
    second: bool,
)
    requires
        first == (candidate != cache),
        second == (candidate != cache),
    ensures
        first == second,
{
}

/// A report that was just handed to the transport cannot trigger a second
/// send: the coordinator's cache then equals the sent report, and sending
/// requires a difference. Together with the coordinator's step contract this
/// gives one send per change, and makes the post-send retry fire exactly
/// when the re-sample differs from what went out.
pub proof fn lemma_send_once(report: Seq<u8>, peer_count: u32)
    ensures
        !spec_should_send(report, report, peer_count),
{
}

/// One send per change, across a whole change/quiet/change sequence. With a
/// peer connected — the condition every send requires — a report differing
/// from the cache is sent; once the cache holds it, the unchanged report stays
/// quiet however often it is offered; and the next differing report is sent
/// exactly once more. Read together with [`crate::engine::TransmitCoordinator::step`],
/// whose cache becomes the sent report on every `Send`.
pub proof fn lemma_one_send_per_change(
    cache: Seq<u8>,
    report: Seq<u8>,
    next: Seq<u8>,
    peer_count: u32,
)
    requires
        peer_count > 0,
        report != cache,
        next != report,
    ensures
        spec_should_send(cache, report, peer_count),
        !spec_should_send(report, report, peer_count),
        spec_should_send(report, next, peer_count),
{
}

} // verus!
