//! Test Harness: a state machine that reports the count of cases, then for each
//! case in registration order announces it, has it invoked and marks it passed,
//! and finally signals success and parks the CPU.

use vstd::prelude::*;
use crate::exit::QemuExitCode;
use crate::policy::{fault_plan, panic_plan, Mode};

verus! {

/// One thing the kernel does, as decided by the harness, the panic policy or
/// the entry point. The driver performs it.
#[derive(Debug, Clone, Copy, PartialEq, Eq, Structural)]
pub enum Action {
    /// Write the greeting line to the display sink.
    Greet,
    /// Hand control to the test harness.
    RunTests,
    /// Write `Running {n} tests` to the host channel.
    Announce(usize),
    /// Write the name of case `i` followed by `...\t` to the host channel.
    Begin(usize),
    /// Invoke case `i`.
    Invoke(usize),
    /// Write the `[ok]` marker to the host channel.
    Passed,
    /// Write the `[failed]` marker and the fault's diagnostic to the host channel.
    Failed,
    /// Write the fault's diagnostic to the display sink.
    ShowFault,
    /// Write the code to the exit port.
    Signal(QemuExitCode),
    /// Wait in low power, forever.
    Park,
}

/// The `p`-th action of a run of `n` cases in which every case returns:
/// the announcement, then three actions per case, then the success signal and
/// the final park.
pub open spec fn scheduled(n: usize, p: int) -> Action {
    if p == 0 {
        Action::Announce(n)
    } else if p <= 3 * n {
        let i = (p - 1) / 3;
        let j = (p - 1) % 3;
        if j == 0 {
            Action::Begin(i as usize)
        } else if j == 1 {
            Action::Invoke(i as usize)
        } else {
            Action::Passed
        }
    } else if p == 3 * n + 1 {
        Action::Signal(QemuExitCode::Success)
    } else {
        Action::Park
    }
}

/// Everything a run of `n` cases does when each case returns normally.
pub open spec fn passing_run(n: usize) -> Seq<Action> {
    Seq::new((3 * n + 3) as nat, |p: int| scheduled(n, p))
}

/// Where the harness stands between two actions.
#[derive(Debug, Clone, Copy, PartialEq, Eq, Structural)]
enum Stage {
    Announce,
    Begin,
    Invoke,
    Passed,
    Finish,
    Parked,
}

/// The test harness for a fixed number of cases. It never looks at what a case
/// does: a case that returns lets it go on, one that faults never comes back.
pub struct Harness {
    count: usize,
    next: usize,
    stage: Stage,
}

proof fn lemma_split_by_three(x: int, j: int)
    requires
        x >= 0,
        0 <= j < 3,
    ensures
        (3 * x + j) / 3 == x,
        (3 * x + j) % 3 == j,
{
    assert((3 * x + j) / 3 == x && (3 * x + j) % 3 == j) by (nonlinear_arith)
        requires
            x >= 0,
            0 <= j < 3,
    ;
}

impl Harness {
    /// Number of cases in the run.
    pub closed spec fn count(&self) -> usize {
        self.count
    }

    /// How many actions the harness has handed out, up to the final park.
    pub closed spec fn pos(&self) -> nat {
        match self.stage {
            Stage::Announce => 0,
            Stage::Begin => (1 + 3 * self.next) as nat,
            Stage::Invoke => (2 + 3 * self.next) as nat,
            Stage::Passed => (3 + 3 * self.next) as nat,
            Stage::Finish => (1 + 3 * self.count) as nat,
            Stage::Parked => (2 + 3 * self.count) as nat,
        }
    }

    pub closed spec fn wf(&self) -> bool {
        match self.stage {
            Stage::Announce => self.next == 0,
            Stage::Begin | Stage::Invoke | Stage::Passed => self.next < self.count,
            Stage::Finish | Stage::Parked => true,
        }
    }

    /// Position of the final park in the run.
    pub open spec fn last(&self) -> nat {
        (3 * self.count() + 2) as nat
    }

    /// A harness for `count` cases that has done nothing yet.
    pub fn new(count: usize) -> (r: Harness)
        ensures
            r.wf(),
            r.count() == count,
            r.pos() == 0,
    {
        Harness { count, next: 0, stage: Stage::Announce }
    }

    /// The next action of the run. The driver calls this again only once the
    /// action is done, so a case that faults ends the run here.
    pub fn step(&mut self) -> (a: Action)
        requires
            old(self).wf(),
        ensures
            final(self).wf(),
            final(self).count() == old(self).count(),
            old(self).pos() <= old(self).last(),
            a == passing_run(old(self).count())[old(self).pos() as int],
            final(self).pos() == if old(self).pos() < old(self).last() {
                old(self).pos() + 1
            } else {
                old(self).last()
            },
    {
        let ghost n = self.count;
        let ghost x = self.next as int;
        match self.stage {
            Stage::Announce => {
                self.stage = if self.count == 0 {
                    Stage::Finish
                } else {
                    Stage::Begin
                };
                Action::Announce(self.count)
            },
            Stage::Begin => {
                proof {
                    lemma_split_by_three(x, 0);
                }
                self.stage = Stage::Invoke;
                Action::Begin(self.next)
            },
            Stage::Invoke => {
                proof {
                    lemma_split_by_three(x, 1);
                }
                self.stage = Stage::Passed;
                Action::Invoke(self.next)
            },
            Stage::Passed => {
                proof {
                    lemma_split_by_three(x, 2);
                }
                self.next = self.next + 1;
                self.stage = if self.next < self.count {
                    Stage::Begin
                } else {
                    Stage::Finish
                };
                Action::Passed
            },
            Stage::Finish => {
                self.stage = Stage::Parked;
                Action::Signal(QemuExitCode::Success)
            },
            Stage::Parked => Action::Park,
        }
    }
}

/// Case `k` is the first of `outcomes` that faults (`outcomes[i]` tells whether
/// case `i` returns normally when invoked).
pub open spec fn first_fault_at(outcomes: Seq<bool>, k: int) -> bool {
    &&& 0 <= k < outcomes.len()
    &&& !outcomes[k]
    &&& forall|j: int| 0 <= j < k ==> outcomes[j]
}

/// Everything a test build does for `n` cases when case `k` is the first to
/// fault: the passing run up to the invocation of case `k`, then the test-mode
/// panic policy.
pub open spec fn faulting_run(n: usize, k: nat) -> Seq<Action> {
    passing_run(n).take((3 * k + 3) as int) + fault_plan(Mode::Test)
}

proof fn lemma_invoke_slot(n: usize, p: int)
    requires
        0 <= p < 3 * n + 3,
        scheduled(n, p) is Invoke,
    ensures
        p == 3 * (scheduled(n, p)->Invoke_0 as int) + 2,
        (scheduled(n, p)->Invoke_0 as int) < n,
{
    let x = p - 1;
    assert(x == 3 * (x / 3) + x % 3 && 0 <= x % 3 < 3 && x / 3 < n) by (nonlinear_arith)
        requires
            0 <= x < 3 * n,
    ;
}

/// What a test build does, from the harness's first report to the final park,
/// when case `i` outcomes normally exactly if `outcomes[i]`. Cases run in order,
/// and the first one that faults hands control to the test-mode panic policy:
/// no case after it is announced or invoked.
pub fn test_runner(outcomes: &[bool]) -> (r: Vec<Action>)
    ensures
        (forall|j: int| 0 <= j < outcomes@.len() ==> outcomes@[j]) ==> r@ == passing_run(
            outcomes@.len() as usize,
        ),
        forall|k: int|
            first_fault_at(outcomes@, k) ==> r@ == faulting_run(outcomes@.len() as usize, k as nat),
{
    let n = outcomes.len();
    let mut h = Harness::new(n);
    let mut out: Vec<Action> = Vec::new();
    loop
        invariant
            h.wf(),
            h.count() == n,
            n == outcomes@.len(),
            h.pos() <= h.last(),
            out@ == passing_run(n).take(h.pos() as int),
            forall|i: int| 0 <= i < n && 3 * i + 2 < h.pos() ==> outcomes@[i],
        decreases h.last() - h.pos(),
    {
        let ghost p = h.pos() as int;
        let a = h.step();
        out.push(a);
        assert(out@ =~= passing_run(n).take(p + 1));
        match a {
            Action::Invoke(i) => {
                proof {
                    lemma_invoke_slot(n, p);
                }
                if !outcomes[i] {
                    let mut tail = panic_plan(Mode::Test);
                    out.append(&mut tail);
                    assert(first_fault_at(outcomes@, i as int));
                    assert forall|k: int| first_fault_at(outcomes@, k) implies k == i as int by {
                        if k < i {
                            assert(outcomes@[k]);
                        } else if k > i {
                            assert(outcomes@[i as int]);
                        }
                    }
                    return out;
                }
            },
            Action::Park => {
                assert(out@ =~= passing_run(n));
                return out;
            },
            _ => {},
        }
    }
}

/// Number of `[ok]` markers among the actions of `t`.
pub open spec fn ok_count(t: Seq<Action>) -> nat
    decreases t.len(),
{
    if t.len() == 0 {
        0
    } else {
        ok_count(t.drop_last()) + if t.last() == Action::Passed {
            1nat
        } else {
            0nat
        }
    }
}

proof fn lemma_ok_count_prefix(n: usize, p: nat)
    requires
        p <= 3 * n + 3,
    ensures
        ok_count(passing_run(n).take(p as int)) == if p == 0 {
            0
        } else {
            ((p - 1) / 3) as nat
        },
    decreases p,
{
    if p > 0 {
        let t = passing_run(n);
        let q = (p - 1) as int;
        lemma_ok_count_prefix(n, q as nat);
        assert(t.take(p as int).drop_last() =~= t.take(q));
        if 1 <= q <= 3 * n {
            lemma_split_by_three((q - 1) / 3, (q - 1) % 3);
            assert(q - 1 == 3 * ((q - 1) / 3) + (q - 1) % 3 && q / 3 == (q - 1) / 3 + if (q - 1)
                % 3 == 2 {
                1int
            } else {
                0int
            }) by (nonlinear_arith)
                requires
                    q >= 1,
            ;
        } else if q > 3 * n {
            assert(q / 3 == (q - 1) / 3) by (nonlinear_arith)
                requires
                    3 * n + 1 <= q <= 3 * n + 2,
            ;
        }
    }
}

/// A run of `n` cases in which every case returns normally reports the count,
/// then for each case in registration order its name, its invocation and its
/// `[ok]` marker, with exactly `n` markers in all; then it writes `Success`
/// (and no other code) to the exit port, and parks.
pub proof fn lemma_passing_run_log(n: usize)
    ensures
        passing_run(n).len() == 3 * n + 3,
        passing_run(n)[0] == Action::Announce(n),
        forall|i: int|
            0 <= i < n ==> {
                &&& #[trigger] passing_run(n)[3 * i + 1] == Action::Begin(i as usize)
                &&& passing_run(n)[3 * i + 2] == Action::Invoke(i as usize)
                &&& passing_run(n)[3 * i + 3] == Action::Passed
            },
        ok_count(passing_run(n)) == n,
        passing_run(n)[3 * n + 1] == Action::Signal(QemuExitCode::Success),
        forall|p: int|
            0 <= p < passing_run(n).len() && #[trigger] passing_run(n)[p] is Signal ==> p == 3 * n
                + 1,
        passing_run(n)[3 * n + 2] == Action::Park,
{
    let t = passing_run(n);
    assert forall|i: int| 0 <= i < n implies {
        &&& #[trigger] t[3 * i + 1] == Action::Begin(i as usize)
        &&& t[3 * i + 2] == Action::Invoke(i as usize)
        &&& t[3 * i + 3] == Action::Passed
    } by {
        lemma_split_by_three(i, 0);
        lemma_split_by_three(i, 1);
        lemma_split_by_three(i, 2);
    }
    lemma_ok_count_prefix(n, (3 * n + 3) as nat);
    assert(t.take((3 * n + 3) as int) =~= t);
    assert((3 * n + 2) / 3 == n) by (nonlinear_arith);
}

/// A run whose first faulting case is case `k` (counting from zero) reports
/// the count and the cases before `k` in order with exactly `k` `[ok]`
/// markers, announces and invokes case `k`, then writes the `[failed]` marker
/// with the diagnostic, writes `Failure` (and no other code) to the exit port,
/// and parks. No case after `k` is announced or invoked.
pub proof fn lemma_faulting_run_log(outcomes: Seq<bool>, k: int)
    requires
        first_fault_at(outcomes, k),
        outcomes.len() <= usize::MAX,
    ensures
        ({
            let t = faulting_run(outcomes.len() as usize, k as nat);
            &&& t.len() == 3 * k + 6
            &&& forall|i: int|
                0 <= i <= k ==> {
                    &&& #[trigger] t[3 * i + 1] == Action::Begin(i as usize)
                    &&& t[3 * i + 2] == Action::Invoke(i as usize)
                }
            &&& forall|i: int| 0 <= i < k ==> #[trigger] t[3 * i + 3] == Action::Passed
            &&& ok_count(t) == k
            &&& t[3 * k + 3] == Action::Failed
            &&& t[3 * k + 4] == Action::Signal(QemuExitCode::Failure)
            &&& t[3 * k + 5] == Action::Park
            &&& forall|p: int|
                0 <= p < t.len() && #[trigger] t[p] is Signal ==> p == 3 * k + 4
            &&& forall|p: int|
                0 <= p < t.len() && #[trigger] t[p] is Begin ==> t[p]->Begin_0 <= k
            &&& forall|p: int|
                0 <= p < t.len() && #[trigger] t[p] is Invoke ==> t[p]->Invoke_0 <= k
        }),
{
    let n = outcomes.len() as usize;
    let t = faulting_run(n, k as nat);
    let s = passing_run(n);
    lemma_passing_run_log(n);
    assert forall|p: int| 0 <= p < 3 * k + 3 implies #[trigger] t[p] == s[p] by {}
    assert forall|p: int| 0 <= p < t.len() && #[trigger] t[p] is Begin implies t[p]->Begin_0 <= k by {
        lemma_split_by_three((p - 1) / 3, (p - 1) % 3);
        assert(p - 1 == 3 * ((p - 1) / 3) + (p - 1) % 3) by (nonlinear_arith)
            requires
                p >= 1,
        ;
    }
    assert forall|p: int| 0 <= p < t.len() && #[trigger] t[p] is Invoke implies t[p]->Invoke_0 <= k by {
        lemma_split_by_three((p - 1) / 3, (p - 1) % 3);
        assert(p - 1 == 3 * ((p - 1) / 3) + (p - 1) % 3) by (nonlinear_arith)
            requires
                p >= 1,
        ;
    }
    lemma_ok_count_prefix(n, (3 * k + 3) as nat);
    let t1 = t.drop_last();
    let t2 = t1.drop_last();
    assert(t2.drop_last() =~= s.take(3 * k + 3));
    assert(ok_count(t) == ok_count(t1));
    assert(ok_count(t1) == ok_count(t2));
    assert(ok_count(t2) == ok_count(t2.drop_last()));
    assert((3 * k + 2) / 3 == k) by (nonlinear_arith)
        requires
            k >= 0,
    ;
}

} // verus!
