pub mod text;
pub mod time;
pub mod task;
pub mod store;
pub mod laws;
