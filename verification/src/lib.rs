//! A command line client of the docbox management service.
pub mod aws_config;
pub mod cli;
pub mod commands;
pub mod documents;
pub mod interface;
pub mod json;
pub mod lambda_transport;
pub mod report;
pub mod session;
pub mod table;
pub mod tenant_id;
