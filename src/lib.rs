pub mod api;
pub mod cache;
pub mod cache_aside;
pub mod models;
pub mod oauth;
pub mod polls;
pub mod repository;
pub mod text;
pub mod validator;
