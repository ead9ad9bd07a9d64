//! Waiting for the threads that serve the sockets.
use vstd::prelude::*;

verus! {

/// How a thread ended.
#[derive(Clone, Copy, Debug, PartialEq, Eq, Structural)]
pub enum ThreadOutcome {
    /// It returned without an error.
    Finished,
    /// It returned an error, that of a panic while it served its socket too.
    Failed,
    /// It panicked while it ended.
    Panicked,
}

/// What is to be done once a thread has ended.
#[derive(Clone, Copy, Debug, PartialEq, Eq, Structural)]
pub enum SupervisorStep {
    /// Wait for another thread to end.
    Wait,
    /// Every thread has finished: return without an error.
    Done,
    /// Return the error of the thread.
    ReturnError,
    /// Resume the panic of the thread.
    ResumeUnwind,
}

/// The threads that have not ended, by their ids.
pub struct Supervisor {
    running: Vec<usize>,
}

impl View for Supervisor {
    type V = Set<usize>;

    closed spec fn view(&self) -> Set<usize> {
        Set::new(|id: usize| self.running@.contains(id))
    }
}

/// What is to be done once a thread has ended with `outcome` and left `running`.
pub open spec fn supervisor_step(running: Set<usize>, outcome: ThreadOutcome) -> SupervisorStep {
    match outcome {
        ThreadOutcome::Finished => if running == Set::<usize>::empty() {
            SupervisorStep::Done
        } else {
            SupervisorStep::Wait
        },
        ThreadOutcome::Failed => SupervisorStep::ReturnError,
        ThreadOutcome::Panicked => SupervisorStep::ResumeUnwind,
    }
}

impl Supervisor {
    /// No id is held twice.
    pub closed spec fn wf(self) -> bool {
        self.running@.no_duplicates()
    }

    /// A supervisor of `n` threads, whose ids are the numbers below `n`.
    pub fn new(n: usize) -> (supervisor: Self)
        ensures
            supervisor.wf(),
            forall|id: usize| supervisor@.contains(id) <==> id < n,
    {
        let mut running: Vec<usize> = Vec::new();
        let mut i: usize = 0;
        while i < n
            invariant
                i <= n,
                running@.len() == i,
                forall|j: int| 0 <= j < i ==> running@[j] == j,
            decreases n - i,
        {
            running.push(i);
            i = i + 1;
        }
        proof {
            assert forall|id: usize| running@.contains(id) <==> id < n by {
                if id < n {
                    assert(running@[id as int] == id);
                }
            }
        }
        Supervisor { running }
    }

    /// Whether no thread is left to wait for.
    pub fn is_done(&self) -> (done: bool)
        ensures
            done == (self@ == Set::<usize>::empty()),
    {
        proof {
            if self.running@.len() > 0 {
                assert(self@.contains(self.running@[0]));
            } else {
                assert(self@ =~= Set::<usize>::empty());
            }
        }
        self.running.len() == 0
    }

    /// Goes on once the thread with this id has ended.
    pub fn finished(&mut self, thread_id: usize, outcome: ThreadOutcome) -> (step: SupervisorStep)
        requires
            old(self).wf(),
            old(self)@.contains(thread_id),
        ensures
            final(self).wf(),
            final(self)@ == old(self)@.remove(thread_id),
            step == supervisor_step(final(self)@, outcome),
            outcome == ThreadOutcome::Failed ==> step == SupervisorStep::ReturnError,
            outcome == ThreadOutcome::Panicked ==> step == SupervisorStep::ResumeUnwind,
            step == SupervisorStep::Done ==> outcome == ThreadOutcome::Finished,
    {
        let mut i: usize = 0;
        while self.running[i] != thread_id
            invariant
                self.running == old(self).running,
                i < self.running@.len(),
                self.running@.contains(thread_id),
                forall|j: int| 0 <= j < i ==> self.running@[j] != thread_id,
            decreases self.running@.len() - i,
        {
            proof {
                assert(i < self.running.len());
                if i + 1 == self.running@.len() {
                    assert(!self.running@.contains(thread_id));
                }
            }
            i = i + 1;
        }
        let ghost before = self.running@;
        self.running.remove(i);
        proof {
            assert forall|id: usize| self.running@.contains(id) <==> before.contains(id) && id
                != thread_id by {
                if before.contains(id) && id != thread_id {
                    let j = choose|j: int| 0 <= j < before.len() && before[j] == id;
                    if j < i {
                        assert(self.running@[j] == id);
                    } else {
                        assert(self.running@[j - 1] == id);
                    }
                }
            }
            assert(self@ =~= old(self)@.remove(thread_id));
        }
        match outcome {
            ThreadOutcome::Finished => if self.is_done() {
                SupervisorStep::Done
            } else {
                SupervisorStep::Wait
            },
            ThreadOutcome::Failed => SupervisorStep::ReturnError,
            ThreadOutcome::Panicked => SupervisorStep::ResumeUnwind,
        }
    }
}

/// The threads left of `running` once those of `ids` have ended.
pub open spec fn running_after(running: Set<usize>, ids: Seq<usize>) -> Set<usize>
    decreases ids.len(),
{
    if ids.len() == 0 {
        running
    } else {
        running_after(running, ids.drop_last()).remove(ids.last())
    }
}

/// Threads may end in any order: as long as one is left the supervisor waits,
/// and once all have finished it is done.
pub proof fn law_done_when_all_finished(running: Set<usize>, ids: Seq<usize>)
    requires
        ids.len() > 0,
        ids.no_duplicates(),
        forall|id: usize| running.contains(id) <==> ids.contains(id),
    ensures
        supervisor_step(running_after(running, ids), ThreadOutcome::Finished)
            == SupervisorStep::Done,
        forall|n: int|
            0 < n < ids.len() ==> supervisor_step(
                #[trigger] running_after(running, ids.take(n)),
                ThreadOutcome::Finished,
            ) == SupervisorStep::Wait,
{
    lemma_running_after(running, ids);
    assert(running_after(running, ids) =~= Set::<usize>::empty());
    assert forall|n: int| 0 < n < ids.len() implies supervisor_step(
        #[trigger] running_after(running, ids.take(n)),
        ThreadOutcome::Finished,
    ) == SupervisorStep::Wait by {
        lemma_running_after(running, ids.take(n));
        let id = ids[n];
        assert(!ids.take(n).contains(id));
        assert(running_after(running, ids.take(n)).contains(id));
    }
}

proof fn lemma_running_after(running: Set<usize>, ids: Seq<usize>)
    ensures
        forall|id: usize| #[trigger]
            running_after(running, ids).contains(id) <==> running.contains(id) && !ids.contains(id),
    decreases ids.len(),
{
    if ids.len() > 0 {
        let init = ids.drop_last();
        lemma_running_after(running, init);
        assert forall|id: usize| #[trigger]
            running_after(running, ids).contains(id) <==> running.contains(id) && !ids.contains(
            id,
        ) by {
            assert(running_after(running, ids).contains(id) <==> running_after(
                running,
                init,
            ).contains(id) && id != ids.last());
            assert(ids.contains(id) <==> init.contains(id) || id == ids.last()) by {
                assert(ids =~= init.push(ids.last()));
                if init.contains(id) {
                    let j = choose|j: int| 0 <= j < init.len() && init[j] == id;
                    assert(ids[j] == id);
                }
                if id == ids.last() {
                    assert(ids[ids.len() - 1] == id);
                }
            }
        }
    }
}

/// Whichever threads are left, a thread that failed ends the program with its
/// error and one that panicked with its panic. Only threads that finished are
/// waited out, and then the program is done exactly when none is left.
pub proof fn law_supervisor_step(running: Set<usize>, outcome: ThreadOutcome)
    ensures
        supervisor_step(running, outcome) == SupervisorStep::ReturnError <==> outcome
            == ThreadOutcome::Failed,
        supervisor_step(running, outcome) == SupervisorStep::ResumeUnwind <==> outcome
            == ThreadOutcome::Panicked,
        supervisor_step(running, outcome) == SupervisorStep::Done <==> outcome
            == ThreadOutcome::Finished && forall|id: usize| !running.contains(id),
        supervisor_step(running, outcome) == SupervisorStep::Wait <==> outcome
            == ThreadOutcome::Finished && exists|id: usize| running.contains(id),
{
    if forall|id: usize| !running.contains(id) {
        assert(running =~= Set::<usize>::empty());
    }
}

} // verus!
