use vstd::prelude::*;
use crate::exchange::Exchange;
use crate::probe::{verdict_of, ProbeKind};
use crate::verdict::{Verdict, VerdictView};

verus! {

/// The verdict reported for a probe that was skipped because the basic
/// answer probe, set as a hard gate, had failed.
pub open spec fn skipped() -> VerdictView {
    VerdictView::Fail("prerequisite not met"@)
}

/// Whether probe `kind`, ending as `verdict`, blocks the probes behind it.
pub open spec fn blocks_rest(gate: bool, kind: ProbeKind, verdict: VerdictView) -> bool {
    gate && kind == ProbeKind::BasicAnswer && verdict is Fail
}

/// The verdicts after the next probe's exchange ended as `exchange`: its
/// own is added, and where that blocks the rest, every probe after it is
/// reported as skipped at once. With every probe reported nothing changes.
pub open spec fn recorded(
    probes: Seq<ProbeKind>,
    gate: bool,
    verdicts: Seq<VerdictView>,
    exchange: Exchange,
) -> Seq<VerdictView> {
    if verdicts.len() >= probes.len() {
        verdicts
    } else {
        let kind = probes[verdicts.len() as int];
        let verdict = verdict_of(kind, exchange);
        if blocks_rest(gate, kind, verdict) {
            verdicts.push(verdict) + Seq::new(
                (probes.len() - verdicts.len() - 1) as nat,
                |i: int| skipped(),
            )
        } else {
            verdicts.push(verdict)
        }
    }
}

/// The verdicts after the exchanges of the next probes ended, in this order,
/// as `exchanges` says: each is recorded in turn.
pub open spec fn replayed(
    probes: Seq<ProbeKind>,
    gate: bool,
    verdicts: Seq<VerdictView>,
    exchanges: Seq<Exchange>,
) -> Seq<VerdictView>
    decreases exchanges.len(),
{
    if exchanges.len() == 0 {
        verdicts
    } else {
        replayed(probes, gate, recorded(probes, gate, verdicts, exchanges[0]), exchanges.skip(1))
    }
}

/// Runs an ordered list of probes against one target and collects their
/// verdicts. The runner decides which probe is next and what is reported;
/// its driver performs the exchanges.
pub struct Runner {
    probes: Vec<ProbeKind>,
    gate: bool,
    verdicts: Vec<Verdict>,
}

impl Runner {
    /// The probes, in the order in which they run.
    pub closed spec fn probes(&self) -> Seq<ProbeKind> {
        self.probes@
    }

    /// Whether a failed basic answer probe skips the probes after it.
    pub closed spec fn gated(&self) -> bool {
        self.gate
    }

    /// The verdicts so far, one for each probe from the first on.
    pub closed spec fn verdicts(&self) -> Seq<VerdictView> {
        Seq::new(self.verdicts@.len(), |i: int| self.verdicts@[i]@)
    }

    /// No probe is reported twice: there are never more verdicts than probes.
    pub closed spec fn wf(&self) -> bool {
        self.verdicts@.len() <= self.probes@.len()
    }

    /// A runner for `probes` that has run none of them.
    pub fn new(probes: Vec<ProbeKind>, gate: bool) -> (r: Runner)
        ensures
            r.wf(),
            r.probes() == probes@,
            r.gated() == gate,
            r.verdicts() == Seq::<VerdictView>::empty(),
    {
        let r = Runner { probes, gate, verdicts: Vec::new() };
        assert(r.verdicts() =~= Seq::<VerdictView>::empty());
        r
    }

    /// The probe to run next, `None` once every probe has its verdict.
    pub fn next_probe(&self) -> (out: Option<ProbeKind>)
        requires
            self.wf(),
        ensures
            self.verdicts().len() < self.probes().len() ==> out == Some(
                self.probes()[self.verdicts().len() as int],
            ),
            self.verdicts().len() == self.probes().len() ==> out.is_none(),
    {
        let n: usize = self.verdicts.len();
        if n < self.probes.len() {
            Some(self.probes[n])
        } else {
            None
        }
    }

    /// Whether every probe has its verdict.
    pub fn is_done(&self) -> (done: bool)
        requires
            self.wf(),
        ensures
            done == (self.verdicts().len() == self.probes().len()),
    {
        self.verdicts.len() == self.probes.len()
    }

    /// Records how the exchange of the next probe ended.
    pub fn record(&mut self, exchange: &Exchange)
        requires
            old(self).wf(),
        ensures
            final(self).wf(),
            final(self).probes() == old(self).probes(),
            final(self).gated() == old(self).gated(),
            final(self).verdicts() == recorded(
                old(self).probes(),
                old(self).gated(),
                old(self).verdicts(),
                *exchange,
            ),
    {
        let n: usize = self.verdicts.len();
        let total: usize = self.probes.len();
        if n >= total {
            return ;
        }
        let kind = self.probes[n];
        let verdict = kind.classify(exchange);
        let closes = self.gate && kind == ProbeKind::BasicAnswer && !verdict.is_success();
        self.verdicts.push(verdict);
        let ghost first = self.verdicts();
        assert(first =~= old(self).verdicts().push(verdict_of(kind, *exchange)));
        if closes {
            let mut i: usize = n + 1;
            while i < total
                invariant
                    n + 1 <= i <= total,
                    total == self.probes@.len(),
                    self.probes@ == old(self).probes@,
                    self.gate == old(self).gate,
                    self.verdicts@.len() == i,
                    self.verdicts() =~= first + Seq::new((i - n - 1) as nat, |j: int| skipped()),
                decreases total - i,
            {
                let ghost before = self.verdicts();
                self.verdicts.push(Verdict::fail("prerequisite not met"));
                assert(self.verdicts() =~= before.push(skipped()));
                i = i + 1;
                assert(before.push(skipped()) =~= first + Seq::new(
                    (i - n - 1) as nat,
                    |j: int| skipped(),
                ));
            }
        }
    }

    /// Records, one after the other, how the exchanges of the next probes
    /// ended.
    pub fn replay(&mut self, exchanges: &Vec<Exchange>)
        requires
            old(self).wf(),
        ensures
            final(self).wf(),
            final(self).probes() == old(self).probes(),
            final(self).gated() == old(self).gated(),
            final(self).verdicts() == replayed(
                old(self).probes(),
                old(self).gated(),
                old(self).verdicts(),
                exchanges@,
            ),
    {
        let mut i: usize = 0;
        assert(exchanges@.skip(0) =~= exchanges@);
        while i < exchanges.len()
            invariant
                i <= exchanges@.len(),
                self.wf(),
                self.probes() == old(self).probes(),
                self.gated() == old(self).gated(),
                replayed(self.probes(), self.gated(), self.verdicts(), exchanges@.skip(i as int))
                    == replayed(
                    old(self).probes(),
                    old(self).gated(),
                    old(self).verdicts(),
                    exchanges@,
                ),
            decreases exchanges@.len() - i,
        {
            assert(exchanges@.skip(i as int)[0] == exchanges@[i as int]);
            assert(exchanges@.skip(i as int).skip(1) =~= exchanges@.skip(i + 1));
            self.record(&exchanges[i]);
            i = i + 1;
        }
    }

    /// The report so far: each probe's name with its verdict, in order.
    pub fn report(&self) -> (out: Vec<(String, Verdict)>)
        requires
            self.wf(),
        ensures
            out@.len() == self.verdicts().len(),
            forall|i: int|
                0 <= i < out@.len() ==> (#[trigger] out@[i]).0@ == self.probes()[i].spec_name()
                    && out@[i].1@ == self.verdicts()[i],
    {
        let mut out: Vec<(String, Verdict)> = Vec::new();
        let mut i: usize = 0;
        while i < self.verdicts.len()
            invariant
                self.wf(),
                i <= self.verdicts@.len(),
                out@.len() == i,
                forall|j: int|
                    0 <= j < i ==> (#[trigger] out@[j]).0@ == self.probes@[j].spec_name()
                        && out@[j].1@ == self.verdicts@[j]@,
            decreases self.verdicts@.len() - i,
        {
            out.push((self.probes[i].name(), self.verdicts[i].duplicate()));
            i = i + 1;
        }
        out
    }
}

/// Every probe is reported exactly once: while probes are left, each record
/// reports at least the next one, never more than there are probes, and
/// what was reported before stays as it was.
pub proof fn lemma_record_reports(
    probes: Seq<ProbeKind>,
    gate: bool,
    verdicts: Seq<VerdictView>,
    exchange: Exchange,
)
    requires
        verdicts.len() < probes.len(),
    ensures
        verdicts.len() < recorded(probes, gate, verdicts, exchange).len() <= probes.len(),
        recorded(probes, gate, verdicts, exchange).subrange(0, verdicts.len() as int) == verdicts,
        recorded(probes, gate, verdicts, exchange)[verdicts.len() as int] == verdict_of(
            probes[verdicts.len() as int],
            exchange,
        ),
{
    assert(recorded(probes, gate, verdicts, exchange).subrange(0, verdicts.len() as int)
        =~= verdicts);
}

/// A failed exchange is reported as a failure with a reason, in a gated run
/// as in an ungated one, and so is every probe that it makes the runner
/// skip; nothing else is added to the report.
pub proof fn lemma_fault_is_reported(
    probes: Seq<ProbeKind>,
    gate: bool,
    verdicts: Seq<VerdictView>,
    exchange: Exchange,
)
    requires
        verdicts.len() < probes.len(),
        !(exchange is Reply),
    ensures
        recorded(probes, gate, verdicts, exchange)[verdicts.len() as int] is Fail,
        forall|i: int|
            verdicts.len() <= i < recorded(probes, gate, verdicts, exchange).len() ==> (
            #[trigger] recorded(probes, gate, verdicts, exchange)[i]) is Fail && recorded(
                probes,
                gate,
                verdicts,
                exchange,
            )[i]->Fail_0.len() > 0,
        forall|i: int|
            verdicts.len() < i < recorded(probes, gate, verdicts, exchange).len()
                ==> #[trigger] recorded(probes, gate, verdicts, exchange)[i] == skipped(),
{
    reveal_strlit("prerequisite not met");
    crate::probe::lemma_failed_exchange_fails(probes[verdicts.len() as int], exchange);
}

/// A failure does not stop an ungated run: each record reports one probe.
pub proof fn lemma_ungated_reports_one(
    probes: Seq<ProbeKind>,
    verdicts: Seq<VerdictView>,
    exchange: Exchange,
)
    requires
        verdicts.len() < probes.len(),
    ensures
        recorded(probes, false, verdicts, exchange) == verdicts.push(
            verdict_of(probes[verdicts.len() as int], exchange),
        ),
{
}

/// An ungated run reports every probe whose exchange it is given, in order,
/// each with the verdict of its own exchange: no failure stops it.
pub proof fn lemma_ungated_replay(
    probes: Seq<ProbeKind>,
    verdicts: Seq<VerdictView>,
    exchanges: Seq<Exchange>,
)
    requires
        verdicts.len() + exchanges.len() <= probes.len(),
    ensures
        replayed(probes, false, verdicts, exchanges) == verdicts + Seq::new(
            exchanges.len(),
            |i: int| verdict_of(probes[verdicts.len() + i], exchanges[i]),
        ),
    decreases exchanges.len(),
{
    let target = verdicts + Seq::new(
        exchanges.len(),
        |i: int| verdict_of(probes[verdicts.len() + i], exchanges[i]),
    );
    if exchanges.len() == 0 {
        assert(target =~= verdicts);
    } else {
        let first = recorded(probes, false, verdicts, exchanges[0]);
        let rest = exchanges.skip(1);
        lemma_ungated_replay(probes, first, rest);
        assert(replayed(probes, false, first, rest) =~= target);
    }
}

/// Behind a closed gate every remaining probe is reported as skipped, so
/// the run is complete.
pub proof fn lemma_closed_gate_completes(
    probes: Seq<ProbeKind>,
    verdicts: Seq<VerdictView>,
    exchange: Exchange,
)
    requires
        verdicts.len() < probes.len(),
        probes[verdicts.len() as int] == ProbeKind::BasicAnswer,
        verdict_of(ProbeKind::BasicAnswer, exchange) is Fail,
    ensures
        recorded(probes, true, verdicts, exchange).len() == probes.len(),
        forall|i: int|
            verdicts.len() < i < probes.len() ==> #[trigger] recorded(
                probes,
                true,
                verdicts,
                exchange,
            )[i] == skipped(),
{
}

/// Running the same probes on the same exchanges gives the same report:
/// what is recorded depends on the runner's state and the exchange alone.
pub proof fn lemma_record_repeatable(
    probes: Seq<ProbeKind>,
    gate: bool,
    verdicts: Seq<VerdictView>,
    first: Exchange,
    second: Exchange,
)
    requires
        first == second,
    ensures
        recorded(probes, gate, verdicts, first) == recorded(probes, gate, verdicts, second),
{
}

} // verus!
