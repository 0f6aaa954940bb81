use vstd::prelude::*;

pub mod create_pool;
pub mod process_vaa;
