use vstd::prelude::*;

pub mod coordinator;
pub mod error;
pub mod laws;
pub mod message;
pub mod options;
pub mod step;

pub use coordinator::Coordinator;
pub use step::Step;

verus! {
}
