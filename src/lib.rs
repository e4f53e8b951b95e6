use vstd::prelude::*;

pub mod dispatch;
pub mod error;
pub mod intent;
pub mod playground;
pub mod reply;
pub mod text;

verus! {

} // verus!
