//! Build-orchestration core of a documentation host: the retry-bounded build
//! queue, the rules that turn registry changes into queue entries, toolchain
//! version tracking, and the decisions of the sandboxed build pipeline.
use vstd::prelude::*;

pub mod paths;
pub mod options;
pub mod queue;
pub mod enqueuer;
pub mod toolchain;
pub mod assets;
pub mod execute;
pub mod pipeline;
pub mod builder;

verus! {

} // verus!
