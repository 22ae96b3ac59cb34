pub mod console;
pub mod laws;
pub mod state;
pub mod voice;
