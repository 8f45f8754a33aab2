pub mod base64;
pub mod json;
pub mod strategy;
