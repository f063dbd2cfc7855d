use vstd::prelude::*;

pub mod audio;
pub mod clock;
pub mod devices;
pub mod icon;
pub mod logger;
pub mod messages;
pub mod options;
pub mod services;
pub mod session;
pub mod stage;
pub mod storage;
pub mod text;
pub mod workflow;

verus! {

} // verus!
