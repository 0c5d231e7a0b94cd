//! Safe, verified stream abstractions for the Flipper Zero storage service.

pub mod storage;
