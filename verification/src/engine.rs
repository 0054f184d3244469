//! The assembled pipeline and the transmit-side state machine.
//!
//! The engine composes translation and assembly into one step; the transmit
//! coordinator owns the last-sent cache and decides, per cycle, whether the
//! transport is to be called; the shared report cell is the one value that
//! crosses the boundary between the sampling and the transmitting context.

use vstd::prelude::*;

use crate::code_map::CodeMap;
use crate::code_map::ConfigError;
use crate::report::ReportLayout;
use crate::report::changed;
use crate::report::copy_report;

verus! {

/// A code map bound to a report layout: the whole pure side of the pipeline.
pub struct Engine {
    pub map: CodeMap,
    pub layout: ReportLayout,
}

impl Engine {
    /// Both halves are well formed and agree on the sentinel.
    pub open spec fn wf(self) -> bool {
        self.map.wf() && self.layout.wf() && self.map.sentinel == self.layout.sentinel
    }

    /// Binds a code map to a layout, failing fast when their sentinels
    /// disagree: a slot cleared by the assembler must mean the same "no
    /// input" that the translation emits for a released channel.
    pub fn new(map: CodeMap, layout: ReportLayout) -> (r: Result<Engine, ConfigError>)
        requires
            map.wf(),
            layout.wf(),
        ensures
            map.sentinel == layout.sentinel ==> r == Ok::<Engine, ConfigError>(
                Engine { map, layout },
            ) && r->Ok_0.wf(),
            map.sentinel != layout.sentinel ==> r == Err::<Engine, ConfigError>(
                ConfigError::SentinelMismatch,
            ),
    {
        if map.sentinel != layout.sentinel {
            Err(ConfigError::SentinelMismatch)
        } else {
            Ok(Engine { map, layout })
        }
    }

    /// The report the engine synthesizes for a snapshot.
    pub open spec fn spec_report(self, states: Seq<bool>) -> Seq<u8> {
        self.layout.spec_assemble(self.map.spec_translate(states))
    }

    /// Translates a snapshot and assembles the wire report in one step.
    pub fn build_report(&self, states: &Vec<bool>) -> (report: Vec<u8>)
        requires
            self.wf(),
            states@.len() == self.map.codes@.len(),
        ensures
            report@ == self.spec_report(states@),
            report@.len() == self.layout.spec_size(),
    {
        let codes = self.map.translate(states);
        self.layout.assemble(&codes)
    }
}

/// What the transmit loop is to do with the current cycle's candidate.
#[derive(Debug, Copy, Clone, PartialEq, Eq, Structural)]
pub enum TxAction {
    /// Hand the candidate buffer to the transport now.
    Send,
    /// Nothing to send: yield for one polling period instead.
    Sleep,
}

/// The transport is called exactly when a peer is listening and the
/// candidate differs from the last report handed over.
pub open spec fn spec_should_send(cache: Seq<u8>, candidate: Seq<u8>, peer_count: u32) -> bool {
    peer_count > 0 && candidate != cache
}

/// The owner of the last-sent report. It alone decides when the transport
/// is called, and its cache is overwritten exactly when a send is attempted
/// — whatever was last handed to the transport, delivered or not, is what
/// the next cycle compares against.
pub struct TransmitCoordinator {
    /// The report last handed to the transport, or the all-released report
    /// before anything has been sent.
    pub cache: Vec<u8>,
    /// The constant report size every candidate must match.
    pub size: usize,
}

impl TransmitCoordinator {
    /// The cache always holds a full report.
    pub open spec fn wf(self) -> bool {
        self.cache@.len() == self.size
    }

    /// A coordinator that has sent nothing yet: its cache is the layout's
    /// all-released report, so the first real input is seen as a change.
    pub fn new(layout: &ReportLayout) -> (c: TransmitCoordinator)
        requires
            layout.wf(),
        ensures
            c.wf(),
            c.size == layout.spec_size(),
            c.cache@ == layout.spec_blank(),
    {
        let cache = layout.blank_report();
        let size = layout.size();
        TransmitCoordinator { cache, size }
    }

    /// One cycle of the transmit loop's decision: send exactly when a peer
    /// is connected and the candidate differs from the cache, and record the
    /// candidate as last-sent in that case. On `Sleep` nothing changes. The
    /// release-retry policy is this same step applied to a fresh sample
    /// right after a send: the cache then equals what was just sent, so the
    /// retry fires exactly when the re-sample differs from it.
    pub fn step(&mut self, candidate: &Vec<u8>, peer_count: u32) -> (action: TxAction)
        requires
            old(self).wf(),
            candidate@.len() == old(self).size,
        ensures
            final(self).wf(),
            final(self).size == old(self).size,
            action == TxAction::Send <==> spec_should_send(
                old(self).cache@,
                candidate@,
                peer_count,
            ),
            action == TxAction::Send ==> final(self).cache@ == candidate@,
            action == TxAction::Sleep ==> final(self).cache@ == old(self).cache@,
    {
        if peer_count > 0 && changed(candidate, &self.cache) {
            self.cache = copy_report(candidate);
            TxAction::Send
        } else {
            TxAction::Sleep
        }
    }
}

/// The latest-value cell shared between the sampling and the transmitting
/// context. The sampler overwrites it whole; the transmitter copies it
/// whole; every value it ever holds has the configured report size, so a
/// reader can never obtain a report of another length. The mutual exclusion
/// that keeps the two contexts from touching the buffer at the same instant
/// is the caller's: the cell is meant to sit behind a lock owned jointly by
/// the two loops.
pub struct SharedReport {
    /// The report most recently produced by the sampling context.
    pub buf: Vec<u8>,
    /// The constant report size every stored value must match.
    pub size: usize,
}

impl SharedReport {
    /// The cell always holds a full report.
    pub open spec fn wf(self) -> bool {
        self.buf@.len() == self.size
    }

    /// A cell holding `initial`, whose length fixes the cell's size for good.
    pub fn new(initial: Vec<u8>) -> (c: SharedReport)
        ensures
            c.wf(),
            c.size == initial@.len(),
            c.buf@ == initial@,
    {
        let size = initial.len();
        SharedReport { buf: initial, size }
    }

    /// Overwrites the cell with a fresh report of the configured size.
    pub fn write(&mut self, value: &Vec<u8>)
        requires
            old(self).wf(),
            value@.len() == old(self).size,
        ensures
            final(self).wf(),
            final(self).size == old(self).size,
            final(self).buf@ == value@,
    {
        self.buf = copy_report(value);
    }

    /// A copy of the stored report; its length is always the configured size.
    pub fn read(&self) -> (r: Vec<u8>)
        requires
            self.wf(),
        ensures
            r@ == self.buf@,
            r@.len() == self.size,
    {
        copy_report(&self.buf)
    }
}

} // verus!
