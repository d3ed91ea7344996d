//! Verified core of a parametric-EQ editor for USB DACs: device registry,
//! wire-format packets, diagnostics bookkeeping and the decision logic of the
//! hardware worker.
pub mod error;
pub mod eq;
pub mod device;
pub mod timing;
pub mod tp35pro;
pub mod session;
pub mod text;
pub mod diagnostics;
pub mod worker;
pub mod hid_read;
pub mod retry;
pub mod pipeline;
pub mod payload;
pub mod autoeq;
pub mod storage;
pub mod helper;
pub mod elevation;
pub mod probe;
