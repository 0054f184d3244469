//! The channel-to-code table and its translation of a snapshot.

use vstd::prelude::*;

verus! {

/// Two channels whose physical inputs exclude one another (the two directions
/// of one strum bar). When both are read as active — debounce glitches can
/// transiently assert both — the `winner` channel's code is emitted and the
/// `loser` channel is treated as released.
#[derive(Debug, Copy, Clone, PartialEq, Eq, Structural)]
pub struct ExclusivePair {
    pub winner: usize,
    pub loser: usize,
}

/// A startup-time configuration fault. Each variant names the check of
/// [`CodeMap::new`] or [`crate::engine::Engine::new`] that refused the
/// configuration; none of these can arise once a value has been built.
#[derive(Debug, Copy, Clone, PartialEq, Eq, Structural)]
pub enum ConfigError {
    /// The code table's length differs from the declared channel count.
    ChannelCountMismatch,
    /// An exclusive pair names a channel index out of range, or pairs a
    /// channel with itself.
    PairOutOfRange,
    /// Two channels share a code other than the sentinel.
    DuplicateCode,
    /// The code table's sentinel differs from the report layout's sentinel.
    SentinelMismatch,
}

/// The fixed table translating a logical channel index to the code it
/// contributes to the outgoing report. A channel whose entry equals the
/// sentinel is unused: it never contributes a code.
pub struct CodeMap {
    /// One code per logical channel, in channel order.
    pub codes: Vec<u8>,
    /// The "no input" code emitted for a released, suppressed or unused channel.
    pub sentinel: u8,
    /// The mutually exclusive channel pairs, highest priority first.
    pub pairs: Vec<ExclusivePair>,
}

/// Channel `i` is suppressed when some exclusive pair names it as the loser
/// and that pair's winner is active in `states`.
pub open spec fn spec_suppressed(pairs: Seq<ExclusivePair>, states: Seq<bool>, i: int) -> bool {
    exists|k: int|
        0 <= k < pairs.len() && pairs[k].loser == i && states[pairs[k].winner as int]
}

impl CodeMap {
    /// The table is well formed: every pair names two distinct in-range
    /// channels, and no code other than the sentinel appears twice.
    pub open spec fn wf(self) -> bool {
        &&& forall|k: int|
            0 <= k < self.pairs@.len() ==> (#[trigger] self.pairs@[k]).winner < self.codes@.len()
                && self.pairs@[k].loser < self.codes@.len() && self.pairs@[k].winner
                != self.pairs@[k].loser
        &&& forall|i: int, j: int|
            0 <= i < j < self.codes@.len() && #[trigger] self.codes@[i] != self.sentinel
                ==> self.codes@[i] != #[trigger] self.codes@[j]
    }

    /// The code emitted for each channel: the channel's table entry when the
    /// channel is active and not suppressed by an exclusive pair, else the
    /// sentinel. Channel order is preserved.
    pub open spec fn spec_translate(self, states: Seq<bool>) -> Seq<u8> {
        Seq::new(
            self.codes@.len(),
            |i: int|
                if states[i] && !spec_suppressed(self.pairs@, states, i) {
                    self.codes@[i]
                } else {
                    self.sentinel
                },
        )
    }

    /// Builds the table, failing fast on a misconfiguration: the code count
    /// must match the channel count, every pair must name two distinct
    /// in-range channels, and non-sentinel codes must be unique.
    pub fn new(channel_count: usize, codes: Vec<u8>, sentinel: u8, pairs: Vec<ExclusivePair>) -> (r:
        Result<CodeMap, ConfigError>)
        ensures
            codes@.len() != channel_count ==> r == Err::<CodeMap, ConfigError>(
                ConfigError::ChannelCountMismatch,
            ),
            codes@.len() == channel_count && !(forall|k: int|
                0 <= k < pairs@.len() ==> (#[trigger] pairs@[k]).winner < codes@.len()
                    && pairs@[k].loser < codes@.len() && pairs@[k].winner != pairs@[k].loser)
                ==> r == Err::<CodeMap, ConfigError>(ConfigError::PairOutOfRange),
            codes@.len() == channel_count && (forall|k: int|
                0 <= k < pairs@.len() ==> (#[trigger] pairs@[k]).winner < codes@.len()
                    && pairs@[k].loser < codes@.len() && pairs@[k].winner != pairs@[k].loser) && !(
            forall|i: int, j: int|
                0 <= i < j < codes@.len() && #[trigger] codes@[i] != sentinel ==> codes@[i]
                    != #[trigger] codes@[j]) ==> r == Err::<CodeMap, ConfigError>(
                ConfigError::DuplicateCode,
            ),
            r is Ok ==> r->Ok_0 == (CodeMap { codes, sentinel, pairs }) && r->Ok_0.wf()
                && r->Ok_0.codes@.len() == channel_count,
            r is Err <==> (codes@.len() != channel_count || !(CodeMap {
                codes,
                sentinel,
                pairs,
            }).wf()),
    {
        if codes.len() != channel_count {
            return Err(ConfigError::ChannelCountMismatch);
        }
        let mut k: usize = 0;
        while k < pairs.len()
            invariant
                codes@.len() == channel_count,
                k <= pairs@.len(),
                forall|m: int|
                    0 <= m < k ==> (#[trigger] pairs@[m]).winner < codes@.len() && pairs@[m].loser
                        < codes@.len() && pairs@[m].winner != pairs@[m].loser,
            decreases pairs@.len() - k,
        {
            let p = pairs[k];
            if p.winner >= codes.len() || p.loser >= codes.len() || p.winner == p.loser {
                proof {
                    let m = (CodeMap { codes, sentinel, pairs });
                    assert(m.pairs@[k as int] == p);
                    assert(!m.wf());
                }
                return Err(ConfigError::PairOutOfRange);
            }
            k = k + 1;
        }
        let mut i: usize = 0;
        while i < codes.len()
            invariant
                codes@.len() == channel_count,
                forall|m: int|
                    0 <= m < pairs@.len() ==> (#[trigger] pairs@[m]).winner < codes@.len()
                        && pairs@[m].loser < codes@.len() && pairs@[m].winner != pairs@[m].loser,
                i <= codes@.len(),
                forall|a: int, b: int|
                    0 <= a < b < codes@.len() && a < i && #[trigger] codes@[a] != sentinel
                        ==> codes@[a] != #[trigger] codes@[b],
            decreases codes@.len() - i,
        {
            if codes[i] != sentinel {
                let mut j: usize = i + 1;
                while j < codes.len()
                    invariant
                        codes@.len() == channel_count,
                        forall|m: int|
                            0 <= m < pairs@.len() ==> (#[trigger] pairs@[m]).winner < codes@.len()
                                && pairs@[m].loser < codes@.len() && pairs@[m].winner
                                != pairs@[m].loser,
                        i < j,
                        j <= codes@.len(),
                        i < codes@.len(),
                        codes@[i as int] != sentinel,
                        forall|b: int| i < b < j ==> codes@[i as int] != #[trigger] codes@[b],
                    decreases codes@.len() - j,
                {
                    if codes[j] == codes[i] {
                        proof {
                            let m = (CodeMap { codes, sentinel, pairs });
                            assert(m.codes@[i as int] != m.sentinel && m.codes@[i as int]
                                == m.codes@[j as int]);
                            assert(!m.wf());
                        }
                        return Err(ConfigError::DuplicateCode);
                    }
                    j = j + 1;
                }
            }
            i = i + 1;
        }
        Ok(CodeMap { codes, sentinel, pairs })
    }

    /// The number of logical channels the table covers.
    pub fn channel_count(&self) -> (n: usize)
        ensures
            n == self.codes@.len(),
    {
        self.codes.len()
    }

    /// Whether channel `i` is suppressed under `states` by an exclusive pair.
    fn is_suppressed(&self, states: &Vec<bool>, i: usize) -> (b: bool)
        requires
            self.wf(),
            states@.len() == self.codes@.len(),
        ensures
            b == spec_suppressed(self.pairs@, states@, i as int),
    {
        let mut k: usize = 0;
        while k < self.pairs.len()
            invariant
                self.wf(),
                states@.len() == self.codes@.len(),
                k <= self.pairs@.len(),
                forall|m: int|
                    0 <= m < k ==> !((#[trigger] self.pairs@[m]).loser == i as int
                        && states@[self.pairs@[m].winner as int]),
            decreases self.pairs@.len() - k,
        {
            let p = self.pairs[k];
            if p.loser == i && states[p.winner] {
                return true;
            }
            k = k + 1;
        }
        false
    }

    /// Translates a snapshot of channel states into the per-channel code
    /// sequence described by [`CodeMap::spec_translate`].
    pub fn translate(&self, states: &Vec<bool>) -> (codes: Vec<u8>)
        requires
            self.wf(),
            states@.len() == self.codes@.len(),
        ensures
            codes@ == self.spec_translate(states@),
    {
        let mut out: Vec<u8> = Vec::new();
        let mut i: usize = 0;
        while i < self.codes.len()
            invariant
                self.wf(),
                states@.len() == self.codes@.len(),
                i <= self.codes@.len(),
                out@.len() == i,
                forall|j: int| 0 <= j < i ==> out@[j] == self.spec_translate(states@)[j],
            decreases self.codes@.len() - i,
        {
            if states[i] && !self.is_suppressed(states, i) {
                out.push(self.codes[i]);
            } else {
                out.push(self.sentinel);
            }
            i = i + 1;
        }
        proof {
            assert(out@ =~= self.spec_translate(states@));
        }
        out
    }
}

} // verus!
