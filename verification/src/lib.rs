//! The decision logic of a small upload service: the fixed greeting, the
//! per-request upload session that turns multipart events into file writes,
//! and the JSON summary that answers a finished upload.
pub mod record;
pub mod reply;
pub mod session;
pub mod storage;
pub mod trace;
