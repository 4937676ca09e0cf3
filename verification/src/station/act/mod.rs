pub mod audio;
pub mod call;
pub mod commands_handler;
