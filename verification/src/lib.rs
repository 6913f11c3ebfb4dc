//! A bridge between a packet-radio mesh and a notification channel.
//!
//! The crate holds the decisions of the bridge: how a decoded frame is
//! classified, what it changes in the node directory and in the usage
//! statistics, which text is relayed, and how a session is opened, watched
//! and retried. Everything that waits, reads a clock or touches a file is
//! left to the caller, which feeds events in and carries commands out.
//!
//! - [`protobufs`] holds the frames as plain data, and [`codec`] the calls
//!   that decode what they carry.
//! - [`storage`] is the memory of the bridge: the directory of nodes and the
//!   counters of [`stats`]. [`snapshot`] is its form on file, and [`report`]
//!   its form for the eye.
//! - [`dispatch`] says what a frame does, [`lifecycle`] how a session lives
//!   and ends, and [`service`] puts the two to work.
//! - [`utils`] sorts frames by what they mean; [`text`] and [`table`] are
//!   the numerals and the association lists that the rest relies on.

pub mod codec;
pub mod dispatch;
pub mod error;
pub mod lifecycle;
pub mod protobufs;
pub mod report;
pub mod service;
pub mod snapshot;
pub mod stats;
pub mod storage;
pub mod table;
pub mod text;
pub mod utils;

pub use crate::service::Service;
pub use crate::storage::Storage;
pub use crate::utils::RecievedPacket;
