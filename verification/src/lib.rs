//! The local data-access boundary of a note-taking application.
//!
//! Two components, which share no state:
//!
//! - the SQL bridge ([`bridge`]): a registry that owns at most one database
//!   connection, and the execution of a parameterised statement in one of
//!   three modes, with untyped values bound as typed parameters and the
//!   rows returned as documents of untyped values;
//! - the secure asset writer ([`asset`]): the decisions of saving bytes
//!   under a caller-supplied file name inside the asset directory of a
//!   vault, so that the write cannot leave that directory.
//!
//! The database engine is called from here. The file system is not: the
//! asset writer says what to ask of it and is told the answers.

pub mod asset;
pub mod bridge;
pub mod document;
pub mod engine;
pub mod error;
pub mod mode;
pub mod path;
pub mod record;
pub mod text;
pub mod value;

pub use crate::asset::{AssetSave, FsReply, FsRequest, Progress};
pub use crate::bridge::DbState;
pub use crate::document::ResultDocument;
pub use crate::error::BoundaryError;
pub use crate::mode::Mode;
pub use crate::record::{Entry, Record};
pub use crate::value::UntypedValue;
