//! Deferred tool execution and MCP task handling.

pub mod catalog;
pub mod client;
pub mod config;
pub mod content;
pub mod deferred;
pub mod descriptor;
pub mod drive;
pub mod duplicate;
pub mod duration;
pub mod elicitation;
pub mod error;
pub mod expiry;
pub mod handler;
pub mod json;
pub mod listener;
pub mod meta;
pub mod mocks;
pub mod model;
pub mod mrtr;
pub mod notifications;
pub mod output;
pub mod requests;
pub mod result;
pub mod rmcp_values;
pub mod service_error;
pub mod status;
pub mod string_map;
pub mod task;
pub mod task_driver;
pub mod task_handle;
pub mod task_table;
pub mod text;
pub mod timer;
pub mod tool;
pub mod transport;
pub mod wait;
