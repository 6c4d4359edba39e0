//! Verified core of a browser-hosted RDP client's drive redirection: path
//! normalization, DOS wildcard matching, the open-`file_id` table, the
//! decision logic that answers server drive IRPs, the serial queue their
//! filesystem work runs on, and what the TLS upgrade decides on plain values.

pub mod backend;
pub mod composite;
pub mod entry;
pub mod fs_steps;
pub mod info;
pub mod lifecycle;
pub mod path;
pub mod protocol;
pub mod queue;
pub mod state;
pub mod tls;
pub mod wildcard;
