//! Verified core of a binding to a CD audio extraction library.
//!
//! The native library does the reading; this crate holds every decision
//! that surrounds a native call: how a return code becomes a typed error,
//! which state a drive handle is in and what must be released, how a
//! sector cursor advances, and how a buffer of pending messages is cut
//! into lines. Each function takes what the native layer handed back as
//! a plain value and says in its contract what follows from it.
//!
//! A reader owns its drive: releasing the reader names the reader's
//! resource first and the drive's second, each at most once.

pub mod error;
pub mod drive;
pub mod messages;
pub mod read;

pub use crate::drive::{Drive, DriveState, Lookup, MessageDest};
pub use crate::error::{Error, ParanoiaError};
pub use crate::messages::{Diagnostic, Level};
pub use crate::read::{DiscReader, Paranoia, ReadRequest, Release, CD_FRAMEWORDS};
