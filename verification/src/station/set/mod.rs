pub mod devices;
