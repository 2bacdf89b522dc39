use crate::error::RenovateError;
use crate::ids::{schema_or_default, RelationId, SchemaId};
use crate::statement::{IndexStmt, RangeVar, Statement};
use vstd::prelude::*;

verus! {

/// What a relation reference holds: its schema (possibly empty) and its name.
pub type RangeVarView = (Seq<char>, Seq<char>);

/// What an index statement holds: index name, table, canonical text.
pub type IndexStmtView = (Seq<char>, Option<RangeVarView>, Seq<char>);

/// An index: its identity and its full statement.
pub type IndexView = ((Seq<char>, (Seq<char>, Seq<char>)), IndexStmtView);

impl View for RangeVar {
    type V = RangeVarView;

    open spec fn view(&self) -> RangeVarView {
        (self.schemaname@, self.relname@)
    }
}

impl View for IndexStmt {
    type V = IndexStmtView;

    open spec fn view(&self) -> IndexStmtView {
        (
            self.idxname@,
            match self.relation {
                Some(r) => Some(r@),
                None => None,
            },
            self.sql@,
        )
    }
}

/// The identity of the table a relation reference names, with the default
/// schema filled in.
pub open spec fn schema_id_of(rv: RangeVarView) -> (Seq<char>, Seq<char>) {
    (schema_or_default(rv.0), rv.1)
}

/// The identity of an index statement that names its table.
pub open spec fn index_id_of(stmt: IndexStmtView) -> (Seq<char>, (Seq<char>, Seq<char>))
    recommends
        stmt.1 is Some,
{
    (stmt.0, schema_id_of(stmt.1->0))
}

/// `DROP INDEX <name>;`
pub open spec fn drop_index_sql(name: Seq<char>) -> Seq<char> {
    "DROP INDEX "@ + name + ";"@
}

/// The create form of an index: its canonical text and a semicolon.
pub open spec fn create_index_sql(stmt: IndexStmtView) -> Seq<char> {
    stmt.2 + ";"@
}

/// The plan for an index delta: the drop of the old index, if any, then the
/// creation of the new one, if any.
pub open spec fn index_plan(old: Option<IndexView>, new: Option<IndexView>) -> Seq<Seq<char>> {
    let drops = match old {
        Some(o) => seq![drop_index_sql(o.0.0)],
        None => Seq::empty(),
    };
    let creates = match new {
        Some(n) => seq![create_index_sql(n.1)],
        None => Seq::empty(),
    };
    drops + creates
}

/// The text that describes a change from `old` to `new`: the old rendering
/// marked `-`, then the new one marked `+`.
pub open spec fn change_text(old: Seq<char>, new: Seq<char>) -> Seq<char> {
    "-"@ + old + "\n+"@ + new
}

pub fn describe_change(old: &str, new: &str) -> (r: String)
    ensures
        r@ == change_text(old@, new@),
{
    let mut s = "-".to_owned();
    s.append(old);
    s.append("\n+");
    s.append(new);
    s
}

impl SchemaId {
    /// The identity of the table a relation reference names; an empty schema
    /// becomes `public`.
    pub fn from_range_var(rv: &RangeVar) -> (r: SchemaId)
        ensures
            r@ == schema_id_of(rv@),
    {
        let schema = if rv.schemaname.as_str().unicode_len() == 0 {
            "public".to_owned()
        } else {
            rv.schemaname.clone()
        };
        SchemaId { schema, name: rv.relname.clone() }
    }
}

impl RangeVar {
    pub fn duplicate(&self) -> (r: RangeVar)
        ensures
            r@ == self@,
    {
        RangeVar { schemaname: self.schemaname.clone(), relname: self.relname.clone() }
    }
}

impl IndexStmt {
    pub fn duplicate(&self) -> (r: IndexStmt)
        ensures
            r@ == self@,
    {
        let relation = match &self.relation {
            Some(rv) => Some(rv.duplicate()),
            None => None,
        };
        IndexStmt { idxname: self.idxname.clone(), relation, sql: self.sql.clone() }
    }

    /// Structural equality of two statements.
    pub fn same(&self, other: &IndexStmt) -> (r: bool)
        ensures
            r == (self@ == other@),
    {
        let rel_same = match (&self.relation, &other.relation) {
            (Some(a), Some(b)) => a.schemaname == b.schemaname && a.relname == b.relname,
            (None, None) => true,
            _ => false,
        };
        self.idxname == other.idxname && rel_same && self.sql == other.sql
    }
}

fn get_id(stmt: &IndexStmt) -> (r: RelationId)
    requires
        stmt.relation is Some,
    ensures
        r@ == index_id_of(stmt@),
{
    let name = stmt.idxname.clone();
    let schema_id = match &stmt.relation {
        Some(rv) => SchemaId::from_range_var(rv),
        None => SchemaId { schema: String::new(), name: String::new() },
    };
    RelationId { name, schema_id }
}

/// A `CREATE INDEX` statement with its identity: the index name and the
/// schema-qualified table.
#[derive(Debug, Clone)]
pub struct Index {
    pub id: RelationId,
    pub node: IndexStmt,
}

impl View for Index {
    type V = IndexView;

    open spec fn view(&self) -> IndexView {
        (self.id@, self.node@)
    }
}

/// The index that a statement stands for, when it is a `CREATE INDEX` that
/// names its table.
pub open spec fn index_of(stmt: IndexStmtView) -> IndexView {
    (index_id_of(stmt), stmt)
}

/// Whether two versions of an object differ anywhere in their statement.
pub open spec fn differs<V>(a: V, b: V) -> bool {
    a != b
}

/// A change to one index: `old` absent means created, `new` absent means
/// dropped, both present means altered.
#[derive(Debug, Clone)]
pub struct IndexDiff {
    pub id: RelationId,
    pub old: Option<Index>,
    pub new: Option<Index>,
    pub diff: String,
}

impl IndexDiff {
    pub open spec fn old_view(&self) -> Option<IndexView> {
        match self.old {
            Some(i) => Some(i@),
            None => None,
        }
    }

    pub open spec fn new_view(&self) -> Option<IndexView> {
        match self.new {
            Some(i) => Some(i@),
            None => None,
        }
    }

    /// The ordered statements that carry out this change: drop first, then
    /// create.
    pub fn plan(&self) -> (r: Vec<String>)
        ensures
            r@.map_values(|s: String| s@) == index_plan(self.old_view(), self.new_view()),
    {
        let mut migrations: Vec<String> = Vec::new();
        if let Some(old) = &self.old {
            let mut s = "DROP INDEX ".to_owned();
            s.append(old.id.name.as_str());
            s.append(";");
            migrations.push(s);
        }
        if let Some(new) = &self.new {
            let mut s = new.node.sql.clone();
            s.append(";");
            migrations.push(s);
        }
        assert(migrations@.map_values(|s: String| s@) =~= index_plan(
            self.old_view(),
            self.new_view(),
        ));
        migrations
    }
}

impl Index {
    pub fn duplicate(&self) -> (r: Index)
        ensures
            r@ == self@,
    {
        Index { id: self.id.duplicate(), node: self.node.duplicate() }
    }

    /// Wraps an index statement; fails when it names no table.
    pub fn try_from(stmt: &IndexStmt) -> (r: Result<Index, RenovateError>)
        ensures
            r is Ok <==> stmt.relation is Some,
            r matches Ok(i) ==> i@ == index_of(stmt@),
            r matches Err(e) ==> e is KindMismatch,
    {
        if stmt.relation.is_none() {
            return Err(RenovateError::KindMismatch(stmt.sql.clone()));
        }
        let id = get_id(stmt);
        Ok(Index { id, node: stmt.duplicate() })
    }

    /// The index that a parsed statement stands for; any statement other than
    /// a `CREATE INDEX` naming its table is a kind mismatch.
    pub fn from_statement(stmt: &Statement) -> (r: Result<Index, RenovateError>)
        ensures
            r is Ok <==> (stmt matches Statement::Index(s) && s.relation is Some),
            r matches Ok(i) ==> (stmt matches Statement::Index(s) && i@ == index_of(s@)),
            r matches Err(e) ==> e is KindMismatch,
    {
        match stmt {
            Statement::Index(s) => Index::try_from(s),
            Statement::AlterTable(s) => Err(RenovateError::KindMismatch(s.sql.clone())),
            Statement::Grant(s) => Err(RenovateError::KindMismatch(s.target.clone())),
            Statement::Other(t) => Err(RenovateError::KindMismatch(t.clone())),
        }
    }

    /// Compares this index with another version of it: an error when the
    /// identities differ, nothing when the statements are equal, and otherwise
    /// the change from `self` to `remote`.
    pub fn diff(&self, remote: &Index) -> (r: Result<Option<IndexDiff>, RenovateError>)
        ensures
            r is Err <==> self@.0 != remote@.0,
            r matches Err(e) ==> e is IdentityMismatch,
            r matches Ok(None) <==> (self@.0 == remote@.0 && !differs(self@, remote@)),
            r matches Ok(Some(d)) ==> {
                &&& d.id@ == self@.0
                &&& d.old_view() == Some(self@)
                &&& d.new_view() == Some(remote@)
                &&& d.diff@ == change_text(self@.1.2, remote@.1.2)
            },
    {
        if !self.id.same(&remote.id) {
            return Err(RenovateError::IdentityMismatch);
        }
        if self.node.same(&remote.node) {
            Ok(None)
        } else {
            let diff = describe_change(self.node.sql.as_str(), remote.node.sql.as_str());
            Ok(Some(IndexDiff {
                id: self.id.duplicate(),
                old: Some(self.duplicate()),
                new: Some(remote.duplicate()),
                diff,
            }))
        }
    }
}

} // verus!
