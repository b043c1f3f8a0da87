//! Verified core of the tego chat library: tagged object handles and the
//! object maps that hand them out, the session bookkeeping of users,
//! connections and file transfers, the event loop's command scheduling and
//! dispatch, and the log-level and bootstrap tables.
#![allow(non_camel_case_types)]

pub mod callbacks;
pub mod command_queue;
pub mod error;
pub mod event_loop;
pub mod file_hash;
pub mod keys;
pub mod ffi;
pub mod logger;
pub mod object_map;
pub mod order;
pub mod service_id;
pub mod session;
pub mod text;
pub mod tor_config;
