pub mod outline;
