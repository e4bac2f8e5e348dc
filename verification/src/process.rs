//! Process states as the acquisition logic reads them, and the count of
//! running processes in a process table.

use vstd::prelude::*;

verus! {

/// The scheduler state of one process, as the host reports it.
#[derive(Debug, Clone, Copy, PartialEq, Eq, Structural)]
pub enum ProcessState {
    Idle,
    Run,
    Sleep,
    Stop,
    Zombie,
    Tracing,
    Dead,
    Wakekill,
    Waking,
    Parked,
    LockBlocked,
    /// A state code the host did not name.
    Unknown(u32),
}

impl ProcessState {
    /// Whether the process is currently running.
    pub open spec fn is_running(self) -> bool {
        self == ProcessState::Run
    }

    /// Whether the process is currently running.
    pub fn running(&self) -> (r: bool)
        ensures
            r == self.is_running(),
    {
        match self {
            ProcessState::Run => true,
            _ => false,
        }
    }
}

/// How many entries of a process table are running.
pub open spec fn running_count(states: Seq<ProcessState>) -> nat
    decreases states.len(),
{
    if states.len() == 0 {
        0
    } else {
        running_count(states.drop_last()) + if states.last().is_running() {
            1nat
        } else {
            0nat
        }
    }
}

/// The running processes are a part of the table: never more than its length.
pub proof fn lemma_running_count_bounded(states: Seq<ProcessState>)
    ensures
        running_count(states) <= states.len(),
    decreases states.len(),
{
    if states.len() > 0 {
        lemma_running_count_bounded(states.drop_last());
    }
}

/// A table in which no entry is running counts zero, and only such a table does.
pub proof fn lemma_running_count_zero(states: Seq<ProcessState>)
    ensures
        running_count(states) == 0 <==> forall|i: int|
            0 <= i < states.len() ==> !(#[trigger] states[i]).is_running(),
    decreases states.len(),
{
    if states.len() > 0 {
        let front = states.drop_last();
        lemma_running_count_zero(front);
        if running_count(states) == 0 {
            assert forall|i: int| 0 <= i < states.len() implies !(#[trigger] states[i]).is_running() by {
                if i < front.len() {
                    assert(front[i] == states[i]);
                }
            }
        } else if !states.last().is_running() {
            let k = choose|k: int| 0 <= k < front.len() && (#[trigger] front[k]).is_running();
            assert(states[k] == front[k]);
        } else {
            assert(states[states.len() - 1].is_running());
        }
    }
}

/// The running count does not depend on the order of the table: it is the
/// number of times the running state occurs in it.
pub proof fn lemma_running_count_is_multiplicity(states: Seq<ProcessState>)
    ensures
        running_count(states) == states.to_multiset().count(ProcessState::Run),
    decreases states.len(),
{
    if states.len() == 0 {
        states.to_multiset_ensures();
        assert(!states.contains(ProcessState::Run));
    } else {
        let front = states.drop_last();
        lemma_running_count_is_multiplicity(front);
        assert(states =~= front.push(states.last()));
        vstd::seq_lib::to_multiset_build(front, states.last());
    }
}

/// Counts the running entries of a process table in one pass.
pub fn count_running(states: &Vec<ProcessState>) -> (count: usize)
    ensures
        count == running_count(states@),
        count == states@.to_multiset().count(ProcessState::Run),
        count <= states@.len(),
{
    proof {
        lemma_running_count_is_multiplicity(states@);
    }
    let mut count: usize = 0;
    let mut i: usize = 0;
    while i < states.len()
        invariant
            i <= states.len(),
            count == running_count(states@.take(i as int)),
            count <= i,
        decreases states.len() - i,
    {
        proof {
            let next = states@.take(i + 1);
            assert(next.drop_last() =~= states@.take(i as int));
            assert(next.last() == states@[i as int]);
        }
        if states[i].running() {
            count = count + 1;
        }
        i = i + 1;
    }
    proof {
        assert(states@.take(i as int) =~= states@);
    }
    count
}

} // verus!
