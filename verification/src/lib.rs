//! A Lightning Address payment endpoint: per user, pay-request metadata and
//! invoices obtained from one of several wallet backends, with bounded
//! failover between them.

pub mod config;
pub mod error;
pub mod failover;
pub mod http_server;
pub mod invoice_creator;
pub mod metadata;
pub mod order;
pub mod pay_info;
pub mod state;
pub mod text;
