use vstd::prelude::*;

pub mod dispatch;
pub mod frame;
pub mod laws;
pub mod state;

