use crate::error::RenovateError;
use crate::ids::{qualified, SchemaId};
use crate::index::{change_text, differs, schema_id_of, RangeVarView};
use crate::statement::{AlterTableCmd, AlterTableStmt, Statement};
use vstd::prelude::*;

verus! {

/// What an `ALTER TABLE` statement holds: table, commands, canonical text.
pub type AlterTableStmtView = (Option<RangeVarView>, Seq<AlterTableCmd>, Seq<char>);

/// A row-level-security toggle: the table's identity and the statement.
pub type TableRlsView = ((Seq<char>, Seq<char>), AlterTableStmtView);

impl View for AlterTableStmt {
    type V = AlterTableStmtView;

    open spec fn view(&self) -> AlterTableStmtView {
        (
            match self.relation {
                Some(r) => Some(r@),
                None => None,
            },
            self.cmds@,
            self.sql@,
        )
    }
}

/// What an `ALTER TABLE` statement does, as far as object kinds go.
#[derive(Debug, Clone, Copy, PartialEq, Eq)]
pub enum AlterTableAction {
    /// Enables or disables row-level security.
    Rls,
    /// Changes the table's owner.
    Owner,
    /// Anything else, or several commands at once.
    Unsupported,
}

/// The action of a statement with the given commands: a single row-security
/// or owner command, or nothing supported.
pub open spec fn action_of(cmds: Seq<AlterTableCmd>) -> AlterTableAction {
    if cmds.len() != 1 {
        AlterTableAction::Unsupported
    } else {
        match cmds[0] {
            AlterTableCmd::EnableRowSecurity => AlterTableAction::Rls,
            AlterTableCmd::DisableRowSecurity => AlterTableAction::Rls,
            AlterTableCmd::ChangeOwner => AlterTableAction::Owner,
            AlterTableCmd::Other => AlterTableAction::Unsupported,
        }
    }
}

pub fn action(stmt: &AlterTableStmt) -> (r: AlterTableAction)
    ensures
        r == action_of(stmt.cmds@),
{
    if stmt.cmds.len() != 1 {
        return AlterTableAction::Unsupported;
    }
    match stmt.cmds[0] {
        AlterTableCmd::EnableRowSecurity => AlterTableAction::Rls,
        AlterTableCmd::DisableRowSecurity => AlterTableAction::Rls,
        AlterTableCmd::ChangeOwner => AlterTableAction::Owner,
        AlterTableCmd::Other => AlterTableAction::Unsupported,
    }
}

/// Whether a statement is a row-level-security toggle on a named table.
pub open spec fn is_rls_stmt(stmt: AlterTableStmtView) -> bool {
    stmt.0 is Some && action_of(stmt.1) == AlterTableAction::Rls
}

/// The toggle that a row-security statement stands for.
pub open spec fn table_rls_of(stmt: AlterTableStmtView) -> TableRlsView
    recommends
        stmt.0 is Some,
{
    (schema_id_of(stmt.0->0), stmt)
}

/// The statement that reverts a toggle: no prior state can be read off the
/// statement, so the fallback is always to disable row-level security.
pub open spec fn rls_revert_sql(id: (Seq<char>, Seq<char>)) -> Seq<char> {
    "ALTER TABLE "@ + qualified(id) + " DISABLE ROW LEVEL SECURITY"@
}

/// The plan for a toggle delta: a created toggle renders its statement, a
/// dropped one its revert; one that is present on both sides has no
/// intermediate state to alter, so it plans nothing.
pub open spec fn rls_plan(old: Option<TableRlsView>, new: Option<TableRlsView>) -> Seq<Seq<char>> {
    match (old, new) {
        (Some(o), None) => seq![rls_revert_sql(o.0)],
        (None, Some(n)) => seq![n.1.2],
        _ => Seq::empty(),
    }
}

impl AlterTableStmt {
    pub fn duplicate(&self) -> (r: AlterTableStmt)
        ensures
            r@ == self@,
    {
        let relation = match &self.relation {
            Some(rv) => Some(rv.duplicate()),
            None => None,
        };
        let mut cmds: Vec<AlterTableCmd> = Vec::new();
        let mut i: usize = 0;
        while i < self.cmds.len()
            invariant
                i <= self.cmds.len(),
                cmds@ == self.cmds@.take(i as int),
            decreases self.cmds.len() - i,
        {
            cmds.push(self.cmds[i]);
            i = i + 1;
            assert(cmds@ =~= self.cmds@.take(i as int));
        }
        assert(cmds@ =~= self.cmds@);
        AlterTableStmt { relation, cmds, sql: self.sql.clone() }
    }

    /// Structural equality of two statements.
    pub fn same(&self, other: &AlterTableStmt) -> (r: bool)
        ensures
            r == (self@ == other@),
    {
        let rel_same = match (&self.relation, &other.relation) {
            (Some(a), Some(b)) => a.schemaname == b.schemaname && a.relname == b.relname,
            (None, None) => true,
            _ => false,
        };
        if !rel_same || !(self.sql == other.sql) || self.cmds.len() != other.cmds.len() {
            assert(self.cmds@.len() != other.cmds@.len() ==> self.cmds@ != other.cmds@);
            return false;
        }
        let mut i: usize = 0;
        while i < self.cmds.len()
            invariant
                i <= self.cmds.len(),
                self.cmds.len() == other.cmds.len(),
                forall|k: int| 0 <= k < i ==> self.cmds@[k] == other.cmds@[k],
            decreases self.cmds.len() - i,
        {
            let same_cmd = match (self.cmds[i], other.cmds[i]) {
                (AlterTableCmd::EnableRowSecurity, AlterTableCmd::EnableRowSecurity) => true,
                (AlterTableCmd::DisableRowSecurity, AlterTableCmd::DisableRowSecurity) => true,
                (AlterTableCmd::ChangeOwner, AlterTableCmd::ChangeOwner) => true,
                (AlterTableCmd::Other, AlterTableCmd::Other) => true,
                _ => false,
            };
            if !same_cmd {
                assert(self.cmds@[i as int] != other.cmds@[i as int]);
                return false;
            }
            i = i + 1;
        }
        assert(self.cmds@ =~= other.cmds@);
        true
    }
}

/// `ALTER TABLE ... ENABLE ROW LEVEL SECURITY` with the table's identity.
#[derive(Debug, Clone)]
pub struct TableRls {
    pub id: SchemaId,
    pub node: AlterTableStmt,
}

impl View for TableRls {
    type V = TableRlsView;

    open spec fn view(&self) -> TableRlsView {
        (self.id@, self.node@)
    }
}

/// A change to one object: `old` absent means created, `new` absent means
/// dropped, both present means altered. `diff` describes it for people.
#[derive(Debug, Clone)]
pub struct NodeDiff<T> {
    pub old: Option<T>,
    pub new: Option<T>,
    pub diff: String,
}

impl TableRls {
    fn new(id: SchemaId, node: AlterTableStmt) -> (r: TableRls)
        ensures
            r@ == (id@, node@),
    {
        TableRls { id, node }
    }

    pub fn duplicate(&self) -> (r: TableRls)
        ensures
            r@ == self@,
    {
        TableRls { id: self.id.duplicate(), node: self.node.duplicate() }
    }

    /// The wrapped statement.
    pub fn node(&self) -> (r: &AlterTableStmt)
        ensures
            r@ == self@.1,
    {
        &self.node
    }

    /// The qualified name of the table.
    pub fn id(&self) -> (r: String)
        ensures
            r@ == qualified(self@.0),
    {
        self.id.to_string()
    }

    /// Wraps an `ALTER TABLE` statement that toggles row-level security on a
    /// named table; any other is a kind mismatch.
    pub fn try_from(stmt: &AlterTableStmt) -> (r: Result<TableRls, RenovateError>)
        ensures
            r is Ok <==> is_rls_stmt(stmt@),
            r matches Ok(t) ==> t@ == table_rls_of(stmt@),
            r matches Err(e) ==> e is KindMismatch,
    {
        let schema_id = match &stmt.relation {
            Some(rv) => SchemaId::from_range_var(rv),
            None => {
                return Err(RenovateError::KindMismatch(stmt.sql.clone()));
            },
        };
        match action(stmt) {
            AlterTableAction::Rls => Ok(TableRls::new(schema_id, stmt.duplicate())),
            _ => Err(RenovateError::KindMismatch(stmt.sql.clone())),
        }
    }

    /// The toggle that a parsed statement stands for.
    pub fn from_statement(stmt: &Statement) -> (r: Result<TableRls, RenovateError>)
        ensures
            r is Ok <==> (stmt matches Statement::AlterTable(s) && is_rls_stmt(s@)),
            r matches Ok(t) ==> (stmt matches Statement::AlterTable(s) && t@ == table_rls_of(s@)),
            r matches Err(e) ==> e is KindMismatch,
    {
        match stmt {
            Statement::AlterTable(s) => TableRls::try_from(s),
            Statement::Index(s) => Err(RenovateError::KindMismatch(s.sql.clone())),
            Statement::Grant(s) => Err(RenovateError::KindMismatch(s.target.clone())),
            Statement::Other(t) => Err(RenovateError::KindMismatch(t.clone())),
        }
    }

    /// The statement that undoes this toggle: row-level security disabled on
    /// the same table.
    pub fn revert(&self) -> (r: String)
        ensures
            r@ == rls_revert_sql(self@.0),
    {
        let mut s = "ALTER TABLE ".to_owned();
        let name = self.id.to_string();
        s.append(name.as_str());
        s.append(" DISABLE ROW LEVEL SECURITY");
        s
    }

    /// Compares this toggle with another version of it: an error when the
    /// tables differ, nothing when the statements are equal, and otherwise the
    /// change from `self` to `remote`.
    pub fn diff(&self, remote: &TableRls) -> (r: Result<Option<NodeDiff<TableRls>>, RenovateError>)
        ensures
            r is Err <==> self@.0 != remote@.0,
            r matches Err(e) ==> e is IdentityMismatch,
            r matches Ok(None) <==> (self@.0 == remote@.0 && !differs(self@, remote@)),
            r matches Ok(Some(d)) ==> {
                &&& d.old_view() == Some(self@)
                &&& d.new_view() == Some(remote@)
                &&& d.diff@ == change_text(self@.1.2, remote@.1.2)
            },
    {
        if !self.id.same(&remote.id) {
            return Err(RenovateError::IdentityMismatch);
        }
        if self.node.same(&remote.node) {
            Ok(None)
        } else {
            let diff = crate::index::describe_change(
                self.node.sql.as_str(),
                remote.node.sql.as_str(),
            );
            Ok(Some(NodeDiff { old: Some(self.duplicate()), new: Some(remote.duplicate()), diff }))
        }
    }
}

impl NodeDiff<TableRls> {
    pub open spec fn old_view(&self) -> Option<TableRlsView> {
        match self.old {
            Some(t) => Some(t@),
            None => None,
        }
    }

    pub open spec fn new_view(&self) -> Option<TableRlsView> {
        match self.new {
            Some(t) => Some(t@),
            None => None,
        }
    }

    /// The revert of the old toggle, if there is one.
    pub fn drop(&self) -> (r: Vec<String>)
        ensures
            r@.map_values(|s: String| s@) == match self.old_view() {
                Some(o) => seq![rls_revert_sql(o.0)],
                None => Seq::<Seq<char>>::empty(),
            },
    {
        let mut v: Vec<String> = Vec::new();
        if let Some(old) = &self.old {
            v.push(old.revert());
        }
        assert(v@.map_values(|s: String| s@) =~= match self.old_view() {
            Some(o) => seq![rls_revert_sql(o.0)],
            None => Seq::<Seq<char>>::empty(),
        });
        v
    }

    /// The statement of the new toggle, if there is one.
    pub fn create(&self) -> (r: Vec<String>)
        ensures
            r@.map_values(|s: String| s@) == match self.new_view() {
                Some(n) => seq![n.1.2],
                None => Seq::<Seq<char>>::empty(),
            },
    {
        let mut v: Vec<String> = Vec::new();
        if let Some(new) = &self.new {
            v.push(new.node.sql.clone());
        }
        assert(v@.map_values(|s: String| s@) =~= match self.new_view() {
            Some(n) => seq![n.1.2],
            None => Seq::<Seq<char>>::empty(),
        });
        v
    }

    /// A toggle has no state between enabled and disabled: nothing to alter.
    pub fn alter(&self) -> (r: Vec<String>)
        ensures
            r@.len() == 0,
    {
        Vec::new()
    }

    /// The ordered statements that carry out this change.
    pub fn plan(&self) -> (r: Vec<String>)
        ensures
            r@.map_values(|s: String| s@) == rls_plan(self.old_view(), self.new_view()),
    {
        let r = match (&self.old, &self.new) {
            (Some(_), None) => self.drop(),
            (None, Some(_)) => self.create(),
            (Some(_), Some(_)) => self.alter(),
            (None, None) => Vec::new(),
        };
        assert(r@.map_values(|s: String| s@) =~= rls_plan(self.old_view(), self.new_view()));
        r
    }
}

} // verus!
