pub mod account;
pub mod proxy;
pub mod contract;
