pub mod circuit_break;
pub mod health_checker;
pub mod redis;
pub mod reqwest;
pub mod result;
pub mod time;
pub mod utils;
