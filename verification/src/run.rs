use crate::call::{views, Call, CallView};
use crate::error::ErrorCode;
use vstd::prelude::*;

verus! {

/// How far a swap has come.
#[derive(Clone, Copy, Debug, PartialEq, Eq, Structural)]
pub enum State {
    /// The holding account is not yet in place.
    Init,
    /// The holding account is in place; swap legs are outstanding.
    Provisioned,
    /// Every swap leg was accepted; the holding account is still open.
    Swapped,
    /// The holding account is closed; settlement legs are outstanding.
    Decommissioned,
    /// Every settlement leg was accepted.
    Settled,
    /// The swap is complete.
    Done,
    /// A call was rejected; the swap is abandoned.
    Aborted,
}

/// A run as plain values: the calls to make, in order, and the progress
/// through them.
pub struct RunView {
    /// Every call of the swap, in the order in which it is made.
    pub plan: Seq<CallView>,
    /// How many calls at the head of the plan put the holding account in place.
    pub provisioning: nat,
    /// How many swap legs, and as many settlement legs, the plan holds.
    pub fan_out: nat,
    /// How many calls were accepted so far.
    pub cursor: nat,
    /// The error of the call that was rejected, if one was.
    pub failure: Option<ErrorCode>,
    /// Whether the run was closed after settlement.
    pub done: bool,
}

impl RunView {
    /// The plan holds the provisioning calls, the swap legs, the closing call
    /// and the settlement legs, and the progress lies within it.
    pub open spec fn wf(self) -> bool {
        &&& self.fan_out > 0
        &&& self.plan.len() == self.provisioning + 2 * self.fan_out + 1
        &&& self.cursor <= self.plan.len()
        &&& self.failure is Some ==> self.cursor < self.plan.len() && !self.done
        &&& self.done ==> self.cursor == self.plan.len()
    }

    /// A run of which no call has been made yet.
    pub open spec fn fresh(self) -> bool {
        self.wf() && self.cursor == 0 && self.failure is None && !self.done
    }

    pub open spec fn state(self) -> State {
        if self.failure is Some {
            State::Aborted
        } else if self.done {
            State::Done
        } else if self.cursor < self.provisioning {
            State::Init
        } else if self.cursor < self.provisioning + self.fan_out {
            State::Provisioned
        } else if self.cursor == self.provisioning + self.fan_out {
            State::Swapped
        } else if self.cursor < self.plan.len() {
            State::Decommissioned
        } else {
            State::Settled
        }
    }

    /// No step changes the run any more.
    pub open spec fn terminal(self) -> bool {
        self.failure is Some || self.done
    }

    /// The call to make next, if one is outstanding.
    pub open spec fn pending(self) -> Option<CallView> {
        if !self.terminal() && self.cursor < self.plan.len() {
            Some(self.plan[self.cursor as int])
        } else {
            None
        }
    }

    /// The run after one step. With a call pending, `accepted` says how the
    /// call went: accepted, the run moves on to the next call; rejected, it
    /// is abandoned with the error of that call. After settlement the step
    /// closes the run. A closed or abandoned run stays as it is.
    pub open spec fn step(self, accepted: bool) -> RunView {
        if self.terminal() {
            self
        } else if self.cursor < self.plan.len() {
            if accepted {
                RunView { cursor: self.cursor + 1, ..self }
            } else {
                RunView { failure: Some(self.plan[self.cursor as int].failure()), ..self }
            }
        } else {
            RunView { done: true, ..self }
        }
    }

    /// How the run ended, if it has.
    pub open spec fn result(self) -> Option<Result<(), ErrorCode>> {
        match self.failure {
            Some(e) => Some(Err(e)),
            None => if self.done {
                Some(Ok(()))
            } else {
                None
            },
        }
    }

    /// The run after one step for each outcome of `outcomes`, in order.
    pub open spec fn run(self, outcomes: Seq<bool>) -> RunView
        decreases outcomes.len(),
    {
        if outcomes.len() == 0 {
            self
        } else {
            self.run(outcomes.drop_last()).step(outcomes.last())
        }
    }

    /// The calls made while stepping through `outcomes`, in the order in
    /// which they were made.
    pub open spec fn attempted(self, outcomes: Seq<bool>) -> Seq<CallView>
        decreases outcomes.len(),
    {
        if outcomes.len() == 0 {
            Seq::empty()
        } else {
            let before = self.run(outcomes.drop_last());
            let earlier = self.attempted(outcomes.drop_last());
            match before.pending() {
                Some(call) => earlier.push(call),
                None => earlier,
            }
        }
    }
}

impl State {
    /// The place of a state on the way from `Init` to `Done`.
    pub open spec fn rank(self) -> int {
        match self {
            State::Init => 0,
            State::Provisioned => 1,
            State::Swapped => 2,
            State::Decommissioned => 3,
            State::Settled => 4,
            State::Done => 5,
            State::Aborted => 6,
        }
    }
}

/// A step never goes back and never leaps. With the pending call accepted,
/// or none pending, the run stays in its state or moves to the next one on
/// the way from `Init` to `Done`; with the pending call rejected it is
/// abandoned. There is no way out of `Done` and `Aborted`.
pub proof fn lemma_step_follows_the_states(run: RunView, accepted: bool)
    requires
        run.wf(),
    ensures
        run.terminal() ==> run.step(accepted) == run,
        !run.terminal() && run.pending() is Some && !accepted ==> run.step(accepted).state()
            == State::Aborted,
        !run.terminal() && (accepted || run.pending() is None) ==> {
            ||| run.step(accepted).state() == run.state()
            ||| run.step(accepted).state().rank() == run.state().rank() + 1
        },
        !run.terminal() ==> (run.step(accepted).state() == State::Done <==> run.state()
            == State::Settled),
{
}

/// A step keeps a run well formed.
pub proof fn lemma_step_wf(run: RunView, accepted: bool)
    requires
        run.wf(),
    ensures
        run.step(accepted).wf(),
        run.step(accepted).plan == run.plan,
        run.step(accepted).provisioning == run.provisioning,
        run.step(accepted).fan_out == run.fan_out,
{
}

/// A closed or abandoned run is never changed again, and asks for no call.
pub proof fn lemma_terminal_is_final(run: RunView, outcomes: Seq<bool>)
    requires
        run.terminal(),
    ensures
        run.run(outcomes) == run,
        run.attempted(outcomes) == Seq::<CallView>::empty(),
    decreases outcomes.len(),
{
    if outcomes.len() > 0 {
        lemma_terminal_is_final(run, outcomes.drop_last());
    }
}

/// While every call is accepted the calls are made in the order of the plan,
/// none left out and none made twice.
pub proof fn lemma_accepted_calls_follow_plan(run: RunView, outcomes: Seq<bool>)
    requires
        run.fresh(),
        outcomes.len() <= run.plan.len(),
        forall|i: int| 0 <= i < outcomes.len() ==> outcomes[i],
    ensures
        run.run(outcomes) == (RunView { cursor: outcomes.len(), ..run }),
        run.attempted(outcomes) == run.plan.subrange(0, outcomes.len() as int),
    decreases outcomes.len(),
{
    if outcomes.len() > 0 {
        lemma_accepted_calls_follow_plan(run, outcomes.drop_last());
        assert(run.attempted(outcomes) =~= run.plan.subrange(0, outcomes.len() as int));
    } else {
        assert(run.attempted(outcomes) =~= run.plan.subrange(0, 0));
    }
}

/// With every call accepted and one more step to close it, the run is done:
/// each call of the plan was made once, in order.
pub proof fn lemma_all_accepted_completes(run: RunView, outcomes: Seq<bool>)
    requires
        run.fresh(),
        outcomes.len() > run.plan.len(),
        forall|i: int| 0 <= i < run.plan.len() ==> outcomes[i],
    ensures
        run.run(outcomes).state() == State::Done,
        run.run(outcomes).result() == Some(Ok::<(), ErrorCode>(())),
        run.run(outcomes).cursor == run.plan.len(),
        run.attempted(outcomes) == run.plan,
    decreases outcomes.len(),
{
    let earlier = outcomes.drop_last();
    if earlier.len() == run.plan.len() {
        lemma_accepted_calls_follow_plan(run, earlier);
        assert(run.plan.subrange(0, run.plan.len() as int) =~= run.plan);
    } else {
        lemma_all_accepted_completes(run, earlier);
    }
}

/// The first rejection abandons the run. The call at position `k` of the plan
/// is the last one made, the run ends with the error of that call, and
/// whatever outcomes follow change nothing: no later call is attempted and
/// the run is never done.
pub proof fn lemma_rejection_aborts(run: RunView, outcomes: Seq<bool>, k: int)
    requires
        run.fresh(),
        0 <= k < run.plan.len(),
        k < outcomes.len(),
        forall|i: int| 0 <= i < k ==> outcomes[i],
        !outcomes[k],
    ensures
        run.run(outcomes).state() == State::Aborted,
        run.run(outcomes).result() == Some(Err::<(), ErrorCode>(run.plan[k].failure())),
        run.run(outcomes).cursor == k,
        run.run(outcomes).pending() is None,
        run.attempted(outcomes) == run.plan.subrange(0, k + 1),
    decreases outcomes.len(),
{
    let earlier = outcomes.drop_last();
    if earlier.len() == k {
        lemma_accepted_calls_follow_plan(run, earlier);
        assert(run.attempted(outcomes) =~= run.plan.subrange(0, k + 1));
    } else {
        lemma_rejection_aborts(run, earlier, k);
    }
}

/// A swap in progress: the calls that make it up and how many of them were
/// accepted. The embedding program makes the pending call, reports how it
/// went with `step`, and goes on until the run is closed or abandoned.
#[derive(Debug)]
pub struct SwapRun {
    plan: Vec<Call>,
    provisioning: usize,
    fan_out: usize,
    cursor: usize,
    failure: Option<ErrorCode>,
    done: bool,
}

impl View for SwapRun {
    type V = RunView;

    closed spec fn view(&self) -> RunView {
        RunView {
            plan: views(self.plan@),
            provisioning: self.provisioning as nat,
            fan_out: self.fan_out as nat,
            cursor: self.cursor as nat,
            failure: self.failure,
            done: self.done,
        }
    }
}

impl SwapRun {
    #[verifier::type_invariant]
    closed spec fn inv(self) -> bool {
        self@.wf()
    }

    /// A run over `plan`, of which no call has been made yet.
    pub(crate) fn new(plan: Vec<Call>, provisioning: usize, fan_out: usize) -> (run: SwapRun)
        requires
            fan_out > 0,
            plan@.len() == provisioning + 2 * fan_out + 1,
        ensures
            run@ == (RunView {
                plan: views(plan@),
                provisioning: provisioning as nat,
                fan_out: fan_out as nat,
                cursor: 0,
                failure: None,
                done: false,
            }),
            run@.fresh(),
    {
        SwapRun { plan, provisioning, fan_out, cursor: 0, failure: None, done: false }
    }

    /// How far the run has come. Every run is well formed.
    pub fn state(&self) -> (state: State)
        ensures
            state == self@.state(),
            self@.wf(),
    {
        proof {
            use_type_invariant(self);
        }
        let calls = self.plan.len();
        assert(self@.plan.len() == calls);
        if self.failure.is_some() {
            State::Aborted
        } else if self.done {
            State::Done
        } else if self.cursor < self.provisioning {
            State::Init
        } else if self.cursor < self.provisioning + self.fan_out {
            State::Provisioned
        } else if self.cursor == self.provisioning + self.fan_out {
            State::Swapped
        } else if self.cursor < calls {
            State::Decommissioned
        } else {
            State::Settled
        }
    }

    /// Whether the run is closed or abandoned.
    pub fn is_terminal(&self) -> (terminal: bool)
        ensures
            terminal == self@.terminal(),
    {
        self.failure.is_some() || self.done
    }

    /// The call to make next, if one is outstanding.
    pub fn pending(&self) -> (call: Option<Call>)
        ensures
            match call {
                Some(c) => self@.pending() == Some(c@),
                None => self@.pending() is None,
            },
    {
        proof {
            use_type_invariant(self);
        }
        if !self.is_terminal() && self.cursor < self.plan.len() {
            Some(self.plan[self.cursor].duplicate())
        } else {
            None
        }
    }

    /// Takes one step: see [`RunView::step`].
    pub fn step(self, accepted: bool) -> (next: SwapRun)
        ensures
            next@ == self@.step(accepted),
            next@.wf(),
    {
        proof {
            use_type_invariant(&self);
        }
        if self.is_terminal() {
            self
        } else if self.cursor < self.plan.len() {
            if accepted {
                SwapRun {
                    plan: self.plan,
                    provisioning: self.provisioning,
                    fan_out: self.fan_out,
                    cursor: self.cursor + 1,
                    failure: self.failure,
                    done: self.done,
                }
            } else {
                let failure = Some(self.plan[self.cursor].failure());
                SwapRun {
                    plan: self.plan,
                    provisioning: self.provisioning,
                    fan_out: self.fan_out,
                    cursor: self.cursor,
                    failure,
                    done: self.done,
                }
            }
        } else {
            SwapRun {
                plan: self.plan,
                provisioning: self.provisioning,
                fan_out: self.fan_out,
                cursor: self.cursor,
                failure: self.failure,
                done: true,
            }
        }
    }

    /// How the run ended, if it has: `Ok` once it is done, the error of the
    /// rejected call once it is abandoned.
    pub fn result(&self) -> (result: Option<Result<(), ErrorCode>>)
        ensures
            result == self@.result(),
    {
        match self.failure {
            Some(e) => Some(Err(e)),
            None => if self.done {
                Some(Ok(()))
            } else {
                None
            },
        }
    }

    /// How many calls the swap is made up of.
    pub fn len(&self) -> (n: usize)
        ensures
            n == self@.plan.len(),
    {
        self.plan.len()
    }

    /// The call at position `i` of the plan.
    pub fn call(&self, i: usize) -> (call: Option<Call>)
        ensures
            match call {
                Some(c) => i < self@.plan.len() && c@ == self@.plan[i as int],
                None => i >= self@.plan.len(),
            },
    {
        if i < self.plan.len() {
            Some(self.plan[i].duplicate())
        } else {
            None
        }
    }

    /// How many calls were accepted so far.
    pub fn accepted(&self) -> (n: usize)
        ensures
            n == self@.cursor,
    {
        self.cursor
    }
}

} // verus!
