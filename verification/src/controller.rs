//! The owner of a tracking session: it reacts to start and stop requests,
//! and it is the one place through which the flag and the store are reached.

use vstd::prelude::*;
use crate::flag::TrackingFlag;
use crate::sample::{SampleView, TrackingData};
use crate::store::{samples_view, SampleStore};
use crate::tracking::{LoopState, TrackingLoop};

verus! {

/// The flag, the store and the name of the task that was started last.
/// Whoever holds the controller exclusively holds all three, so a start
/// request flips the flag and empties the store in one step.
#[derive(Debug)]
pub struct Controller {
    flag: TrackingFlag,
    store: SampleStore,
    task_name: String,
}

/// What a controller holds, as mathematical values.
pub struct ControllerView {
    pub tracking: bool,
    pub samples: Seq<SampleView>,
    pub task_name: Seq<char>,
}

impl View for Controller {
    type V = ControllerView;

    closed spec fn view(&self) -> ControllerView {
        ControllerView {
            tracking: self.flag@,
            samples: self.store@,
            task_name: self.task_name@,
        }
    }
}

impl Controller {
    /// A controller that is not tracking, with an empty store and no task
    /// name.
    pub fn new() -> (controller: Controller)
        ensures
            !controller@.tracking,
            controller@.samples == Seq::<SampleView>::empty(),
            controller@.task_name == Seq::<char>::empty(),
    {
        Controller { flag: TrackingFlag::new(), store: SampleStore::new(), task_name: String::new() }
    }

    /// Handles a start request for the task `task_name`: flips the flag,
    /// empties the store and records the name. If the flag is now on, the
    /// result is the one tracking loop that samples for `task_name`; if the
    /// request found the flag on and so switched it off, there is none.
    pub fn request_create_task(&mut self, task_name: String) -> (spawned: Option<TrackingLoop>)
        ensures
            final(self)@.tracking == !old(self)@.tracking,
            final(self)@.samples == Seq::<SampleView>::empty(),
            final(self)@.task_name == task_name@,
            spawned is Some <==> final(self)@.tracking,
            spawned matches Some(tracking_loop) ==> tracking_loop@.task_name == task_name@
                && tracking_loop@.state == LoopState::Running,
    {
        let tracking = self.flag.toggle();
        self.store.clear();
        self.task_name = task_name.clone();
        if tracking {
            Some(TrackingLoop::new(task_name))
        } else {
            None
        }
    }

    /// Handles a stop request: switches the flag off. The store and the
    /// task name stay as they are; a running loop saves the samples when it
    /// next looks at the flag.
    pub fn request_stop_task(&mut self)
        ensures
            !final(self)@.tracking,
            final(self)@.samples == old(self)@.samples,
            final(self)@.task_name == old(self)@.task_name,
    {
        self.flag.set(false);
    }

    /// Whether the flag is on.
    pub fn is_tracking(&self) -> (tracking: bool)
        ensures
            tracking == self@.tracking,
    {
        self.flag.get()
    }

    /// The name of the task that was started last.
    pub fn task_name(&self) -> (task_name: &String)
        ensures
            task_name@ == self@.task_name,
    {
        &self.task_name
    }

    /// The number of samples in the store.
    pub fn sample_count(&self) -> (n: usize)
        ensures
            n == self@.samples.len(),
    {
        self.store.len()
    }

    /// Adds `sample` at the end of the store.
    pub fn append(&mut self, sample: TrackingData)
        ensures
            final(self)@.samples == old(self)@.samples.push(sample@),
            final(self)@.tracking == old(self)@.tracking,
            final(self)@.task_name == old(self)@.task_name,
    {
        self.store.append(sample);
    }

    /// A copy of the samples in the store, in order, for saving.
    pub fn snapshot_for_persist(&self) -> (snapshot: Vec<TrackingData>)
        ensures
            samples_view(snapshot@) == self@.samples,
    {
        self.store.snapshot_for_persist()
    }
}

} // verus!
