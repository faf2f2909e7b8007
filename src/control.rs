use vstd::prelude::*;

verus! {

/// A message from the command console to the render loop.
#[derive(Clone, Copy, Debug, PartialEq, Eq, Structural)]
pub enum ControlSignal {
    Pause,
    Resume,
    Exit,
}

} // verus!
