//! The operations a single invocation can select. The argument parser
//! lives outside the engine and hands over exactly one of these.

use vstd::prelude::*;

verus! {

/// One lifecycle operation, with its argument where it takes one.
#[derive(Debug, PartialEq)]
pub enum Command {
    Init,
    Create { name: String },
    Up,
    Down,
    Status,
    Drop,
    Info,
    Version,
}

/// One parsed invocation.
#[derive(Debug, PartialEq)]
pub struct Cli {
    pub command: Command,
}

} // verus!
