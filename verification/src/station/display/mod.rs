pub mod brightness;
