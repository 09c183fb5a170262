//! The tracking loop as a state machine: each step looks at the flag and
//! says what the loop does next.

use vstd::prelude::*;
use vstd::string::*;
use crate::controller::Controller;
use crate::sample::{SampleView, TrackingData};
use crate::store::samples_view;

verus! {

/// Where a tracking loop stands. A loop starts out running and terminates
/// once; there is no way back.
#[derive(Debug, Clone, Copy, PartialEq, Eq, Structural)]
pub enum LoopState {
    Running,
    Terminated,
}

/// What a tracking loop does after a look at the flag.
#[derive(Debug, PartialEq, Eq)]
pub enum LoopAction {
    /// Take one sample, append it to the store and look again.
    Sample,
    /// Save `samples` to the file `file_name`, then exit.
    Persist { file_name: String, samples: Vec<TrackingData> },
    /// Nothing: the loop has terminated before.
    Exit,
}

/// What a [`LoopAction`] says, as mathematical values.
pub enum LoopActionView {
    Sample,
    Persist { file_name: Seq<char>, samples: Seq<SampleView> },
    Exit,
}

impl View for LoopAction {
    type V = LoopActionView;

    open spec fn view(&self) -> LoopActionView {
        match self {
            LoopAction::Sample => LoopActionView::Sample,
            LoopAction::Persist { file_name, samples } => LoopActionView::Persist {
                file_name: file_name@,
                samples: samples_view(samples@),
            },
            LoopAction::Exit => LoopActionView::Exit,
        }
    }
}

/// One run of sampling for one task, from the start request that spawned it
/// to the moment it finds the flag off.
#[derive(Debug)]
pub struct TrackingLoop {
    task_name: String,
    state: LoopState,
}

/// What a tracking loop holds, as mathematical values.
pub struct TrackingLoopView {
    pub task_name: Seq<char>,
    pub state: LoopState,
}

impl View for TrackingLoop {
    type V = TrackingLoopView;

    closed spec fn view(&self) -> TrackingLoopView {
        TrackingLoopView { task_name: self.task_name@, state: self.state }
    }
}

/// The name of the file that the samples of the task `task_name` are saved
/// to: the task name as it is, followed by `.json`.
pub open spec fn file_name_of(task_name: Seq<char>) -> Seq<char> {
    task_name + seq!['.', 'j', 's', 'o', 'n']
}

/// The state of a loop after a look at the flag: it keeps running while the
/// flag is on, and is terminated from the first time it finds the flag off.
pub open spec fn next_state(state: LoopState, tracking: bool) -> LoopState {
    if state == LoopState::Running && tracking {
        LoopState::Running
    } else {
        LoopState::Terminated
    }
}

/// What a loop in `state` for the task `task_name` does when it finds the
/// flag at `tracking` and the store holding `samples`.
pub open spec fn action_of(
    state: LoopState,
    task_name: Seq<char>,
    tracking: bool,
    samples: Seq<SampleView>,
) -> LoopActionView {
    match state {
        LoopState::Terminated => LoopActionView::Exit,
        LoopState::Running => if tracking {
            LoopActionView::Sample
        } else {
            LoopActionView::Persist { file_name: file_name_of(task_name), samples }
        },
    }
}

/// The state of a loop that started in `state`, after it has looked at the
/// flag once for each entry of `flags`, in order.
pub open spec fn state_after(state: LoopState, flags: Seq<bool>) -> LoopState
    decreases flags.len(),
{
    if flags.len() == 0 {
        state
    } else {
        next_state(state_after(state, flags.drop_last()), flags.last())
    }
}

/// How often a loop that started in `state` is told to save while it looks
/// at the flag once for each entry of `flags`, in order.
pub open spec fn saves_during(state: LoopState, flags: Seq<bool>) -> nat
    decreases flags.len(),
{
    if flags.len() == 0 {
        0
    } else {
        let before = state_after(state, flags.drop_last());
        let saved: nat = if before == LoopState::Running && !flags.last() {
            1
        } else {
            0
        };
        saves_during(state, flags.drop_last()) + saved
    }
}

/// A terminated loop stays terminated and does nothing more, whatever the
/// flag and the store hold.
pub proof fn lemma_terminated_is_final(
    task_name: Seq<char>,
    tracking: bool,
    samples: Seq<SampleView>,
)
    ensures
        next_state(LoopState::Terminated, tracking) == LoopState::Terminated,
        action_of(LoopState::Terminated, task_name, tracking, samples) == LoopActionView::Exit,
{
}

/// A loop that starts out running still runs after a series of looks at the
/// flag exactly if it found the flag on each time. It is told to save once
/// if it found the flag off at some look, and never otherwise: it saves at
/// most once and does not resume.
pub proof fn lemma_saves_once(flags: Seq<bool>)
    ensures
        state_after(LoopState::Running, flags) == LoopState::Running <==> forall|i: int|
            0 <= i < flags.len() ==> flags[i],
        saves_during(LoopState::Running, flags) == (if state_after(LoopState::Running, flags)
            == LoopState::Running {
            0nat
        } else {
            1nat
        }),
    decreases flags.len(),
{
    if flags.len() > 0 {
        let earlier = flags.drop_last();
        lemma_saves_once(earlier);
        assert(forall|i: int| 0 <= i < earlier.len() ==> earlier[i] == flags[i]);
        if state_after(LoopState::Running, flags) == LoopState::Running {
            assert forall|i: int| 0 <= i < flags.len() implies flags[i] by {
                if i < earlier.len() {
                    assert(earlier[i]);
                }
            }
        } else if state_after(LoopState::Running, earlier) == LoopState::Running {
            assert(!flags[flags.len() - 1]);
        } else {
            let i = choose|i: int| 0 <= i < earlier.len() && !earlier[i];
            assert(!flags[i]);
        }
    }
}

/// The name of the file for the task `task_name`.
pub fn output_file_name(task_name: &String) -> (file_name: String)
    ensures
        file_name@ == file_name_of(task_name@),
{
    proof {
        reveal_strlit(".json");
    }
    let file_name = task_name.clone().concat(".json");
    assert(file_name@ =~= file_name_of(task_name@));
    file_name
}

impl TrackingLoop {
    /// A running loop for the task `task_name`.
    pub fn new(task_name: String) -> (tracking_loop: TrackingLoop)
        ensures
            tracking_loop@.task_name == task_name@,
            tracking_loop@.state == LoopState::Running,
    {
        TrackingLoop { task_name, state: LoopState::Running }
    }

    /// Where the loop stands.
    pub fn state(&self) -> (state: LoopState)
        ensures
            state == self@.state,
    {
        self.state
    }

    /// The name of the task that the loop samples for.
    pub fn task_name(&self) -> (task_name: &String)
        ensures
            task_name@ == self@.task_name,
    {
        &self.task_name
    }

    /// One look at the flag. While the loop runs and the flag is on, the
    /// loop is to take a sample. The first time it finds the flag off, it is
    /// to save a copy of the store under the task's file name, and it is
    /// terminated from then on, whatever the flag says later.
    pub fn advance(&mut self, controller: &Controller) -> (action: LoopAction)
        ensures
            final(self)@.task_name == old(self)@.task_name,
            final(self)@.state == next_state(old(self)@.state, controller@.tracking),
            action@ == action_of(
                old(self)@.state,
                old(self)@.task_name,
                controller@.tracking,
                controller@.samples,
            ),
    {
        match self.state {
            LoopState::Terminated => LoopAction::Exit,
            LoopState::Running => {
                if controller.is_tracking() {
                    LoopAction::Sample
                } else {
                    self.state = LoopState::Terminated;
                    LoopAction::Persist {
                        file_name: output_file_name(&self.task_name),
                        samples: controller.snapshot_for_persist(),
                    }
                }
            },
        }
    }
}

} // verus!
