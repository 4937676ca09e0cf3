pub mod act;
pub mod api;
pub mod display;
pub mod set;
pub mod state;
