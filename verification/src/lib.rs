//! Verified core of a peer-to-peer money movement service.

pub mod text;
pub mod decimal;
pub mod errors;
pub mod currency;
pub mod money;
pub mod ledger;
pub mod ids;
pub mod idempotency;
pub mod account;
pub mod user;
pub mod transfer;
pub mod timestamp;
pub mod audit;
pub mod records;
pub mod settlement;
pub mod db_errors;
pub mod sql;
pub mod mapper;
pub mod api_error;
pub mod request_guard;
pub mod dto;
pub mod transfer_flow;
pub mod auth_flow;
pub mod user_flow;
pub mod rate_limit;
pub mod health;
pub mod feed;
pub mod http_config;
