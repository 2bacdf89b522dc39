//! Schema-object diffing and migration planning for PostgreSQL DDL.
//!
//! Statements arrive as a plain-value model of the parsed SQL (see
//! `statement`); each object kind wraps one statement with a stable identity,
//! compares two versions of itself, and plans the ordered SQL that turns one
//! into the other.
pub mod commands;
pub mod config;
pub mod error;
pub mod ids;
pub mod laws;
pub mod index;
pub mod priv_text;
pub mod privilege;
pub mod statement;
pub mod table_rls;

pub use commands::{apply_step, ApplyAction, ApplyEvent, ApplyState};
pub use config::{
    default_format, default_indent, default_lines, default_path, default_uppercase, Layout,
    RenovateConfig, RenovateFormatConfig, RenovateOutputConfig,
};
pub use error::RenovateError;
pub use ids::{RelationId, SchemaId};
pub use index::{Index, IndexDiff};
pub use privilege::{Privilege, PrivilegeDiff, SinglePriv};
pub use table_rls::{AlterTableAction, NodeDiff, TableRls};
pub use statement::{AlterTableCmd, AlterTableStmt, GrantStmt, IndexStmt, RangeVar, Statement};

