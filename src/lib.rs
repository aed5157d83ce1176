pub mod child;
pub mod config;
pub mod manager;
pub mod packet;
pub mod results;
pub mod state;
pub mod trampoline;
