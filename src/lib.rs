pub mod dto;
pub mod errors;
pub mod laws;
pub mod product;
pub mod repository;
pub mod validations;
