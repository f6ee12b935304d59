//! A dry-run analyzer for merging a clothing skeleton onto an avatar
//! skeleton, with the state of the interactive session that drives it.
//!
//! [`analysis::analyze`] reads two lists of bones, the clothing's skinned
//! meshes and a naming suffix, and reports which bone names collide and how
//! much a merge would move and rename. It merges nothing. [`session::App`]
//! holds the menu, the rolling log and the last report of a session;
//! [`args`] and [`keys`] read the command line and the keyboard. Files and
//! the terminal are left to the caller.

pub mod analysis;
pub mod args;
pub mod keys;
pub mod model;
pub mod names;
pub mod session;
pub mod suffix;
pub mod text;

pub use crate::analysis::{analyze, duplicate_names, referenced_bones};
pub use crate::args::{parse_args, ArgError, Args, Invocation};
pub use crate::keys::{command_for_key, Command, Key};
pub use crate::model::{sample_input, BoneInfo, SmrInfo, VrmInput, VrmReport};
pub use crate::session::{Action, App};
pub use crate::suffix::normalize_suffix;
