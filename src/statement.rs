use crate::privilege::SinglePriv;
use vstd::prelude::*;

verus! {

/// A relation named by a statement; `schemaname` is empty when the text
/// gives no schema.
#[derive(Debug, Clone)]
pub struct RangeVar {
    pub schemaname: String,
    pub relname: String,
}

/// `CREATE INDEX`: the index name, its table, and the statement rendered
/// back as canonical SQL (without the trailing semicolon).
#[derive(Debug, Clone)]
pub struct IndexStmt {
    pub idxname: String,
    pub relation: Option<RangeVar>,
    pub sql: String,
}

/// One command of an `ALTER TABLE` statement, as far as the planner reads it.
#[derive(Debug, Clone, Copy, PartialEq, Eq)]
pub enum AlterTableCmd {
    EnableRowSecurity,
    DisableRowSecurity,
    ChangeOwner,
    Other,
}

/// `ALTER TABLE`: its table, its commands, and the statement rendered back as
/// canonical SQL.
#[derive(Debug, Clone)]
pub struct AlterTableStmt {
    pub relation: Option<RangeVar>,
    pub cmds: Vec<AlterTableCmd>,
    pub sql: String,
}

/// `GRANT` / `REVOKE`: the privileges it lists, the rendered target (such as
/// `TABLE public.foo`) and the rendered grantee list.
#[derive(Debug, Clone)]
pub struct GrantStmt {
    pub is_grant: bool,
    pub privileges: Vec<SinglePriv>,
    pub target: String,
    pub grantees: String,
}

/// The first statement of a parsed SQL text.
#[derive(Debug, Clone)]
pub enum Statement {
    Index(IndexStmt),
    AlterTable(AlterTableStmt),
    Grant(GrantStmt),
    /// Any other statement, with its text.
    Other(String),
}

} // verus!
