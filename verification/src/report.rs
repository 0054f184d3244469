//! Report assembly in the wire layout, and change detection.

use vstd::prelude::*;

verus! {

/// The wire layout of the structured report: a modifier byte, a reserved
/// byte, then `slots` code slots. Both lead bytes are always zero; a slot
/// that carries no code holds the sentinel.
#[derive(Debug, Copy, Clone, PartialEq, Eq, Structural)]
pub struct ReportLayout {
    /// How many code slots the report carries.
    pub slots: usize,
    /// The code that fills an empty slot.
    pub sentinel: u8,
}

/// The non-sentinel codes of `codes`, kept in channel order.
pub open spec fn active_codes(codes: Seq<u8>, sentinel: u8) -> Seq<u8>
    decreases codes.len(),
{
    if codes.len() == 0 {
        Seq::empty()
    } else {
        let rest = active_codes(codes.drop_last(), sentinel);
        if codes.last() == sentinel {
            rest
        } else {
            rest.push(codes.last())
        }
    }
}

/// Extending the scanned prefix by one code appends that code to the active
/// list exactly when it is not the sentinel.
pub proof fn lemma_active_codes_step(codes: Seq<u8>, sentinel: u8, i: int)
    requires
        0 <= i < codes.len(),
    ensures
        active_codes(codes.take(i + 1), sentinel) == if codes[i] == sentinel {
            active_codes(codes.take(i), sentinel)
        } else {
            active_codes(codes.take(i), sentinel).push(codes[i])
        },
{
    assert(codes.take(i + 1).drop_last() =~= codes.take(i));
    assert(codes.take(i + 1).last() == codes[i]);
}

/// No more codes are active than there are channels.
pub proof fn lemma_active_codes_len(codes: Seq<u8>, sentinel: u8)
    ensures
        active_codes(codes, sentinel).len() <= codes.len(),
    decreases codes.len(),
{
    if codes.len() > 0 {
        lemma_active_codes_len(codes.drop_last(), sentinel);
    }
}

/// A snapshot with every code at the sentinel has no active codes.
pub proof fn lemma_active_codes_none(codes: Seq<u8>, sentinel: u8)
    requires
        forall|i: int| 0 <= i < codes.len() ==> codes[i] == sentinel,
    ensures
        active_codes(codes, sentinel) == Seq::<u8>::empty(),
    decreases codes.len(),
{
    if codes.len() > 0 {
        lemma_active_codes_none(codes.drop_last(), sentinel);
    }
}

impl ReportLayout {
    /// The layout leaves room for the two lead bytes.
    pub open spec fn wf(self) -> bool {
        self.slots <= usize::MAX - 2
    }

    /// The report's constant byte length: two lead bytes plus the slots.
    pub open spec fn spec_size(self) -> int {
        2 + self.slots
    }

    /// The assembled report: zeroed lead bytes, then the active codes in
    /// channel order. When more codes are active than there are slots, the
    /// trailing ones are dropped; every slot past the active codes holds the
    /// sentinel.
    pub open spec fn spec_assemble(self, codes: Seq<u8>) -> Seq<u8> {
        let act = active_codes(codes, self.sentinel);
        Seq::new(
            self.spec_size() as nat,
            |i: int|
                if i < 2 {
                    0u8
                } else if i - 2 < act.len() {
                    act[i - 2]
                } else {
                    self.sentinel
                },
        )
    }

    /// The report carrying no input at all: zeroed lead bytes and every slot
    /// at the sentinel.
    pub open spec fn spec_blank(self) -> Seq<u8> {
        Seq::new(
            self.spec_size() as nat,
            |i: int|
                if i < 2 {
                    0u8
                } else {
                    self.sentinel
                },
        )
    }

    /// The report's constant byte length.
    pub fn size(&self) -> (n: usize)
        requires
            self.wf(),
        ensures
            n == self.spec_size(),
    {
        2 + self.slots
    }

    /// Builds the all-released report.
    pub fn blank_report(&self) -> (r: Vec<u8>)
        requires
            self.wf(),
        ensures
            r@ == self.spec_blank(),
    {
        let mut r: Vec<u8> = Vec::new();
        r.push(0);
        r.push(0);
        let mut k: usize = 0;
        while k < self.slots
            invariant
                k <= self.slots,
                self.wf(),
                r@.len() == 2 + k,
                r@[0] == 0u8,
                r@[1] == 0u8,
                forall|j: int| 2 <= j < r@.len() ==> r@[j] == self.sentinel,
            decreases self.slots - k,
        {
            r.push(self.sentinel);
            k = k + 1;
        }
        proof {
            assert(r@ =~= self.spec_blank());
        }
        r
    }

    /// Assembles the translated codes into the wire report, applying the
    /// truncation policy of [`ReportLayout::spec_assemble`]: active codes are
    /// placed in channel order, those beyond the slot capacity are dropped,
    /// and every remaining slot is overwritten with the sentinel so that no
    /// stale code from an earlier report can survive.
    pub fn assemble(&self, codes: &Vec<u8>) -> (report: Vec<u8>)
        requires
            self.wf(),
        ensures
            report@ == self.spec_assemble(codes@),
            report@.len() == self.spec_size(),
    {
        let mut report = self.blank_report();
        let mut placed: usize = 0;
        let mut i: usize = 0;
        proof {
            assert(codes@.take(0) =~= Seq::<u8>::empty());
        }
        while i < codes.len()
            invariant
                self.wf(),
                i <= codes@.len(),
                report@.len() == self.spec_size(),
                report@[0] == 0u8,
                report@[1] == 0u8,
                placed <= self.slots,
                placed <= active_codes(codes@.take(i as int), self.sentinel).len(),
                placed == self.slots || placed == active_codes(
                    codes@.take(i as int),
                    self.sentinel,
                ).len(),
                forall|j: int|
                    2 <= j < 2 + placed ==> #[trigger] report@[j] == active_codes(
                        codes@.take(i as int),
                        self.sentinel,
                    )[j - 2],
                forall|j: int|
                    2 + placed <= j < report@.len() ==> #[trigger] report@[j] == self.sentinel,
            decreases codes@.len() - i,
        {
            let c = codes[i];
            proof {
                lemma_active_codes_step(codes@, self.sentinel, i as int);
            }
            if c != self.sentinel && placed < self.slots {
                report[2 + placed] = c;
                placed = placed + 1;
            }
            i = i + 1;
        }
        proof {
            assert(codes@.take(codes@.len() as int) =~= codes@);
            lemma_active_codes_len(codes@, self.sentinel);
            assert(report@ =~= self.spec_assemble(codes@));
        }
        report
    }
}

/// Whether a freshly assembled candidate differs from the cached last-sent
/// report: exact structural equality over the whole buffer, nothing partial.
pub fn changed(candidate: &Vec<u8>, cache: &Vec<u8>) -> (b: bool)
    ensures
        b == (candidate@ != cache@),
{
    if candidate.len() != cache.len() {
        return true;
    }
    let mut i: usize = 0;
    while i < candidate.len()
        invariant
            candidate@.len() == cache@.len(),
            i <= candidate@.len(),
            forall|j: int| 0 <= j < i ==> candidate@[j] == cache@[j],
        decreases candidate@.len() - i,
    {
        if candidate[i] != cache[i] {
            return true;
        }
        i = i + 1;
    }
    proof {
        assert(candidate@ =~= cache@);
    }
    false
}

/// A by-value copy of a report buffer.
pub fn copy_report(v: &Vec<u8>) -> (r: Vec<u8>)
    ensures
        r@ == v@,
{
    let mut r: Vec<u8> = Vec::new();
    let mut i: usize = 0;
    while i < v.len()
        invariant
            i <= v@.len(),
            r@ == v@.take(i as int),
        decreases v@.len() - i,
    {
        r.push(v[i]);
        proof {
            assert(r@ =~= v@.take(i + 1));
        }
        i = i + 1;
    }
    proof {
        assert(v@.take(v@.len() as int) =~= v@);
    }
    r
}

} // verus!
