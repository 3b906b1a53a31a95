#![allow(non_snake_case)]

pub mod config;
pub mod content;
pub mod encoding;
pub mod flow;
pub mod handlers;
pub mod http;
pub mod json;
pub mod lists;
pub mod middleware;
pub mod models;
pub mod numbers;
pub mod object_id;
pub mod pagination;
pub mod routes;
pub mod store;
pub mod text;
pub mod time;
pub mod utils;
