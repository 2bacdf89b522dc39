use renovate::{Index, IndexStmt, RangeVar, RenovateError, Statement};

// The statement that `CREATE INDEX <name> ON <table> (<col>);` parses to.
fn create_index(name: &str, table: &str, col: &str) -> Statement {
    Statement::Index(IndexStmt {
        idxname: name.to_string(),
        relation: Some(RangeVar { schemaname: String::new(), relname: table.to_string() }),
        sql: format!("CREATE INDEX {} ON {} USING btree ({})", name, table, col),
    })
}

#[test]
fn index_should_parse() {
    // CREATE INDEX foo ON bar (baz);
    let index = Index::from_statement(&create_index("foo", "bar", "baz")).unwrap();
    assert_eq!(index.id.name, "foo");
    assert_eq!(index.id.schema_id.schema, "public");
    assert_eq!(index.id.schema_id.name, "bar");
}

#[test]
fn unchanged_index_should_return_none() {
    // CREATE INDEX foo ON bar (baz); twice
    let old = Index::from_statement(&create_index("foo", "bar", "baz")).unwrap();
    let new = Index::from_statement(&create_index("foo", "bar", "baz")).unwrap();
    let diff = old.diff(&new).unwrap();
    assert!(diff.is_none());
}

#[test]
fn changed_index_should_generate_migration() {
    // CREATE INDEX foo ON bar (baz); then CREATE INDEX foo ON bar (ooo);
    let old = Index::from_statement(&create_index("foo", "bar", "baz")).unwrap();
    let new = Index::from_statement(&create_index("foo", "bar", "ooo")).unwrap();
    let diff = old.diff(&new).unwrap().unwrap();
    let migrations = diff.plan();
    assert_eq!(migrations[0], "DROP INDEX foo;");
    assert_eq!(migrations[1], "CREATE INDEX foo ON bar USING btree (ooo);");
    assert_eq!(migrations.len(), 2);
}

#[test]
fn index_identity_ignores_formatting() {
    // `create index foo on bar(baz);` renders to the same canonical statement
    let a = Index::from_statement(&create_index("foo", "bar", "baz")).unwrap();
    let mut stmt = IndexStmt {
        idxname: "foo".to_string(),
        relation: Some(RangeVar { schemaname: String::new(), relname: "bar".to_string() }),
        sql: "create index foo on bar(baz)".to_string(),
    };
    let b = Index::try_from(&stmt).unwrap();
    assert_eq!(a.id.name, b.id.name);
    assert_eq!(a.id.schema_id.schema, b.id.schema_id.schema);
    assert_eq!(a.id.schema_id.name, b.id.schema_id.name);
    stmt.relation = Some(RangeVar { schemaname: "app".to_string(), relname: "bar".to_string() });
    let c = Index::try_from(&stmt).unwrap();
    assert_eq!(c.id.schema_id.schema, "app");
}

#[test]
fn index_diff_across_identities_fails() {
    let a = Index::from_statement(&create_index("foo", "bar", "baz")).unwrap();
    let b = Index::from_statement(&create_index("qux", "bar", "baz")).unwrap();
    assert!(matches!(a.diff(&b), Err(RenovateError::IdentityMismatch)));
}

#[test]
fn index_from_other_statement_is_kind_mismatch() {
    let stmt = Statement::Other("SELECT 1".to_string());
    assert!(matches!(Index::from_statement(&stmt), Err(RenovateError::KindMismatch(_))));
    let no_table = IndexStmt { idxname: "foo".to_string(), relation: None, sql: String::new() };
    assert!(matches!(Index::try_from(&no_table), Err(RenovateError::KindMismatch(_))));
}

#[test]
fn index_diff_text_shows_both_versions() {
    let old = Index::from_statement(&create_index("foo", "bar", "baz")).unwrap();
    let new = Index::from_statement(&create_index("foo", "bar", "ooo")).unwrap();
    let diff = old.diff(&new).unwrap().unwrap();
    assert_eq!(
        diff.diff,
        "-CREATE INDEX foo ON bar USING btree (baz)\n+CREATE INDEX foo ON bar USING btree (ooo)"
    );
}

#[test]
fn dropped_and_created_index_plans() {
    let old = Index::from_statement(&create_index("foo", "bar", "baz")).unwrap();
    let dropped = renovate::IndexDiff {
        id: old.id.clone(),
        old: Some(old.clone()),
        new: None,
        diff: String::new(),
    };
    assert_eq!(dropped.plan(), vec!["DROP INDEX foo;".to_string()]);
    let created = renovate::IndexDiff { id: old.id.clone(), old: None, new: Some(old), diff: String::new() };
    assert_eq!(created.plan(), vec!["CREATE INDEX foo ON bar USING btree (baz);".to_string()]);
}
