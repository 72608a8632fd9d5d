use vstd::prelude::*;

verus! {

/// The step of starting the devtool at which the event loop failed.
#[derive(Clone, Copy, Debug, PartialEq, Eq, Structural)]
pub enum StartErrorTask {
    CreateEventLoop,
    RunApp,
}

} // verus!
