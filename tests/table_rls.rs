use renovate::{
    AlterTableCmd, AlterTableStmt, NodeDiff, RangeVar, RenovateError, SchemaId, Statement, TableRls,
};

// The statement that `ALTER TABLE <table> <ENABLE|DISABLE> ROW LEVEL SECURITY` parses to.
fn alter_rls(table: &str, enable: bool) -> Statement {
    let (cmd, word) = if enable {
        (AlterTableCmd::EnableRowSecurity, "ENABLE")
    } else {
        (AlterTableCmd::DisableRowSecurity, "DISABLE")
    };
    Statement::AlterTable(AlterTableStmt {
        relation: Some(RangeVar { schemaname: String::new(), relname: table.to_string() }),
        cmds: vec![cmd],
        sql: format!("ALTER TABLE {} {} ROW LEVEL SECURITY", table, word),
    })
}

#[test]
fn table_rls_should_parse() {
    // ALTER TABLE foo ENABLE ROW LEVEL SECURITY
    let parsed = TableRls::from_statement(&alter_rls("foo", true)).unwrap();
    let expected = SchemaId::new("public", "foo");
    assert_eq!(parsed.id.schema, expected.schema);
    assert_eq!(parsed.id.name, expected.name);
}

#[test]
fn table_rls_should_revert() {
    let parsed = TableRls::from_statement(&alter_rls("foo", true)).unwrap();
    let reverted = parsed.revert();
    assert_eq!(reverted, "ALTER TABLE public.foo DISABLE ROW LEVEL SECURITY");
}

#[test]
fn table_rls_should_generate_drop_create_migration() {
    let sql1 = "ALTER TABLE foo ENABLE ROW LEVEL SECURITY";
    let diff: NodeDiff<TableRls> = NodeDiff {
        old: Some(TableRls::from_statement(&alter_rls("foo", true)).unwrap()),
        new: None,
        diff: sql1.to_string(),
    };
    let plan = diff.plan();
    assert_eq!(plan, &["ALTER TABLE public.foo DISABLE ROW LEVEL SECURITY"]);
}

#[test]
fn table_rls_created_and_altered_plans() {
    let enabled = TableRls::from_statement(&alter_rls("foo", true)).unwrap();
    let created: NodeDiff<TableRls> =
        NodeDiff { old: None, new: Some(enabled.clone()), diff: String::new() };
    assert_eq!(created.plan(), &["ALTER TABLE foo ENABLE ROW LEVEL SECURITY"]);
    let disabled = TableRls::from_statement(&alter_rls("foo", false)).unwrap();
    let delta = enabled.diff(&disabled).unwrap().unwrap();
    assert!(delta.plan().is_empty());
    assert!(delta.alter().is_empty());
    assert!(enabled.diff(&enabled).unwrap().is_none());
    assert_eq!(enabled.id(), "public.foo");
}

#[test]
fn table_rls_rejects_other_statements() {
    let owner = Statement::AlterTable(AlterTableStmt {
        relation: Some(RangeVar { schemaname: String::new(), relname: "foo".to_string() }),
        cmds: vec![AlterTableCmd::ChangeOwner],
        sql: "ALTER TABLE foo OWNER TO bob".to_string(),
    });
    assert!(matches!(TableRls::from_statement(&owner), Err(RenovateError::KindMismatch(_))));
    let a = TableRls::from_statement(&alter_rls("foo", true)).unwrap();
    let b = TableRls::from_statement(&alter_rls("bar", true)).unwrap();
    assert!(matches!(a.diff(&b), Err(RenovateError::IdentityMismatch)));
}
