use vstd::prelude::*;

verus! {

/// The namespace used when a statement names no schema.
pub open spec fn default_schema() -> Seq<char> {
    "public"@
}

/// A schema applied to a possibly empty namespace.
pub open spec fn schema_or_default(schema: Seq<char>) -> Seq<char> {
    if schema.len() == 0 { default_schema() } else { schema }
}

/// Identity of a namespace-scoped object: its schema and its name.
#[derive(Debug, Clone)]
pub struct SchemaId {
    pub schema: String,
    pub name: String,
}

/// Identity of an object that lives inside a namespace-scoped relation.
#[derive(Debug, Clone)]
pub struct RelationId {
    pub name: String,
    pub schema_id: SchemaId,
}

impl View for SchemaId {
    type V = (Seq<char>, Seq<char>);

    open spec fn view(&self) -> (Seq<char>, Seq<char>) {
        (self.schema@, self.name@)
    }
}

impl View for RelationId {
    type V = (Seq<char>, (Seq<char>, Seq<char>));

    open spec fn view(&self) -> (Seq<char>, (Seq<char>, Seq<char>)) {
        (self.name@, self.schema_id@)
    }
}

/// The qualified name `schema.name` of a schema-scoped identity.
pub open spec fn qualified(id: (Seq<char>, Seq<char>)) -> Seq<char> {
    id.0 + seq!['.'] + id.1
}

impl SchemaId {
    pub fn new(schema: &str, name: &str) -> (r: SchemaId)
        ensures
            r@ == (schema@, name@),
    {
        SchemaId { schema: schema.to_owned(), name: name.to_owned() }
    }

    /// Copies the identity, keeping both strings.
    pub fn duplicate(&self) -> (r: SchemaId)
        ensures
            r@ == self@,
    {
        SchemaId { schema: self.schema.clone(), name: self.name.clone() }
    }

    /// The qualified name `schema.name`.
    pub fn to_string(&self) -> (r: String)
        ensures
            r@ == qualified(self@),
    {
        let mut s = self.schema.clone();
        s.append(".");
        s.append(self.name.as_str());
        proof {
            reveal_strlit(".");
        }
        s
    }

    pub fn same(&self, other: &SchemaId) -> (r: bool)
        ensures
            r == (self@ == other@),
    {
        self.schema == other.schema && self.name == other.name
    }
}

impl RelationId {
    pub fn new(name: &str, schema_id: SchemaId) -> (r: RelationId)
        ensures
            r@ == (name@, schema_id@),
    {
        RelationId { name: name.to_owned(), schema_id }
    }

    pub fn duplicate(&self) -> (r: RelationId)
        ensures
            r@ == self@,
    {
        RelationId { name: self.name.clone(), schema_id: self.schema_id.duplicate() }
    }

    pub fn same(&self, other: &RelationId) -> (r: bool)
        ensures
            r == (self@ == other@),
    {
        self.name == other.name && self.schema_id.same(&other.schema_id)
    }
}

} // verus!
