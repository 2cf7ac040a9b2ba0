//! Verified core of an image-generation web service: password and token
//! handling, error-to-response mapping, object-storage URLs, image-reply
//! interpretation and the decision logic of the HTTP handlers.

pub mod auth;
pub mod config;
pub mod errors;
pub mod r2;
pub mod s3;
pub mod jobs;
pub mod openai_client;
pub mod users;
pub mod handlers;
