pub mod linux;
