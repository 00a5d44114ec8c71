//! An SMTP protocol engine: the command model, the per-session state machine,
//! the driver that turns inbound events into outbound replies, the STARTTLS
//! stream state machine and the single-slot connection lease of the client.
pub mod text;
pub mod command;
pub mod session;
pub mod reply;
pub mod mail;
pub mod machine;
pub mod driver;
pub mod tls;
pub mod transport;
pub mod service;
pub mod laws;
