pub mod display_controller;
