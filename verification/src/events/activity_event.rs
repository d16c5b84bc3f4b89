//! Activity-scoped event.

use vstd::prelude::*;

use super::xacpp_event::XacppEvent;
use crate::activity_ref::ActivityRef;

verus! {

/// An event together with the activity that produced it.
#[derive(Debug)]
pub struct XacppActivityEvent {
    pub activity: ActivityRef,
    pub event: XacppEvent,
}

impl XacppActivityEvent {
    /// The event `event` produced by activity `activity`.
    pub fn new(activity: String, event: XacppEvent) -> (r: Self)
        ensures
            r == (XacppActivityEvent { activity: ActivityRef { id: activity }, event }),
    {
        XacppActivityEvent { activity: ActivityRef::new(activity), event }
    }
}

} // verus!
