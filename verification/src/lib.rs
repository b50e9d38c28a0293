pub mod auth;
pub mod contract;
pub mod effects;
pub mod errors;
pub mod fixed_point;
pub mod gate;
pub mod laws;
pub mod math;
pub mod storage;
pub mod strategy;
pub mod validation;
pub mod vault;
