pub mod audit;
pub mod policy;
