//! A recoverable-delete library: targets are moved into a trashbin under a
//! unique archival name, or deleted for good after an explicit confirmation.
//!
//! Everything that touches the console or the filesystem is left to the
//! caller: the library decides, through a session state machine, which
//! operation comes next, and the caller performs it and reports back.
pub mod answer;
pub mod error;
pub mod laws;
pub mod naming;
pub mod paths;
pub mod relocation;
pub mod session;

pub use answer::{decide, decide_trimmed, Answer};
pub use error::XiloError;
pub use naming::{archival_name, base_name};
pub use paths::{join, trashbin_path};
pub use relocation::{plan_removal, Flags, Question, Removal};
pub use session::{recursive_flag_unused, Action, Event, Phase, Session};
