use vstd::prelude::*;

verus! {

#[derive(Clone, Copy, Debug, PartialEq, Eq, Structural)]
pub enum OutboxError {
    InvalidTask,
    Unavailable,
}

} // verus!
