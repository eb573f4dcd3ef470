pub mod handlers;
pub mod middleware;
pub mod models;
