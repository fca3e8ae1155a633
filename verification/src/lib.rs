//! A small backup toolkit: a line searcher and the planning core of a
//! directory-mirroring backup daemon.
//!
//! The daemon part is split in two: this library holds the pure decisions
//! (mapping a watched path to its backup counterpart, planning a mirror copy,
//! resolving a removal into a trash move with collision-safe naming), while a
//! thin driver around it performs the actual filesystem work.

pub mod events;
pub mod grep;
pub mod model;
pub mod paths;
pub mod text;

pub use events::{BackupError, ChangeEvent, Dispatch, EventKind, PathState, TrashMove};
pub use events::{parse_config, plan_event, trash_plan};
pub use grep::{longest_word, search, search_case_insensitive, Config};
pub use paths::{basename, join_under, map_path, trash_root_path};
