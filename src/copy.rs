use vstd::prelude::*;

verus! {

/// One whole-file copy: the bytes of `source` are to land at `target`.
pub struct CopyStep {
    pub source: String,
    pub target: String,
}

/// A save into the library: `dir` is created (with its parents, if missing)
/// before any step runs, then the steps run in order. The first failing step
/// ends the transfer; what was written before it stays.
pub struct Transfer {
    pub dir: String,
    pub steps: Vec<CopyStep>,
}

/// A copy step from `source` to `target`.
pub open spec fn is_step(step: CopyStep, source: Seq<char>, target: Seq<char>) -> bool {
    step.source@ == source && step.target@ == target
}

} // verus!
