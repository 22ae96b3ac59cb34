pub mod task;
pub mod util;
