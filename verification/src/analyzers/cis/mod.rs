pub mod account_policies;
pub mod kernel;
pub mod ssh;
pub mod network;
pub mod security_options;
pub mod services;
