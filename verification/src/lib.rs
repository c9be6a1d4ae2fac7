pub mod foreign;
pub mod models;
pub mod db;
pub mod services;
pub mod response;
pub mod routes;
