pub mod domain;
pub mod http;
pub mod usecases;
