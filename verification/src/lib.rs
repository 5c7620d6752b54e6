//! A small collection of verified exercises built around one core subsystem:
//! a fixed-size worker pool with a shared dispatch queue, failure isolation
//! per job, and a blocking, graceful teardown.
//!
//! The pool itself is modelled as a sequential state machine in [`pool`];
//! the remaining modules hold the verified data structures and text
//! utilities that the surrounding programs use.

use vstd::prelude::*;

pub mod bulk;
pub mod cdl;
pub mod duration;
pub mod grep;
pub mod guessing;
pub mod http;
pub mod pool;
pub mod shapes;
pub mod text;

pub use shapes::Rectangle;

verus! {

use vstd::string::StringSliceAdditionalSpecFns;

/// Sum of two numbers, the classic first exercise.
pub fn add(left: u64, right: u64) -> (r: u64)
    requires
        left + right <= u64::MAX,
    ensures
        r == left + right,
{
    left + right
}

/// The longer of two strings, measured in bytes; ties go to the second.
pub fn longest<'a>(x: &'a str, y: &'a str) -> (r: &'a str)
    ensures
        r@ == (if x.spec_bytes().len() > y.spec_bytes().len() {
            x@
        } else {
            y@
        }),
{
    if x.as_bytes().len() > y.as_bytes().len() {
        x
    } else {
        y
    }
}

} // verus!
