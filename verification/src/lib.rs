//! Server-side logic of a team trivia game: join codes, admin credentials,
//! session tokens and the decisions that the web layer makes around them.

pub mod admin;
pub mod auth;
pub mod censor;
pub mod config;
pub mod db;
pub mod joincode;
pub mod password;
pub mod rng;
pub mod routes;
pub mod state;
pub mod text;
pub mod random_str;
pub mod utf8;
