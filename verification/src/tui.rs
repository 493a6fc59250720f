use vstd::prelude::*;

verus! {

/// The two modes the interactive session moves between: navigating the
/// rendered state, or composing a command in the input line.
#[derive(Clone, Copy, PartialEq, Eq, Structural, Debug)]
pub enum WorkMode {
    Read,
    Edit,
}

} // verus!
