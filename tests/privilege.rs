use renovate::{GrantStmt, Privilege, RenovateError, SinglePriv, Statement};

fn priv_named(name: &str) -> SinglePriv {
    SinglePriv::new(name, vec![])
}

// `GRANT <privs> ON TABLE public.foo TO app`
fn grant(privs: &[&str]) -> Privilege {
    let stmt = Statement::Grant(GrantStmt {
        is_grant: true,
        privileges: privs.iter().map(|p| priv_named(p)).collect(),
        target: "TABLE public.foo".to_string(),
        grantees: "app".to_string(),
    });
    Privilege::from_statement(&stmt).unwrap()
}

fn summary(plan: &[GrantStmt]) -> Vec<(bool, String)> {
    plan.iter()
        .map(|g| {
            assert_eq!(g.privileges.len(), 1);
            assert_eq!(g.target, "TABLE public.foo");
            assert_eq!(g.grantees, "app");
            (g.is_grant, g.privileges[0].name.clone())
        })
        .collect()
}

#[test]
fn changed_grant_revokes_and_grants_only_what_changed() {
    let old = grant(&["SELECT", "INSERT"]);
    let new = grant(&["SELECT", "UPDATE"]);
    let diff = old.diff(&new).unwrap().unwrap();
    let plan = diff.plan();
    assert_eq!(summary(&plan), vec![(false, "INSERT".to_string()), (true, "UPDATE".to_string())]);
    assert_eq!(diff.diff, "-SELECT INSERT \n+SELECT UPDATE ");
}

#[test]
fn grant_with_same_privileges_in_other_order_is_unchanged() {
    let old = grant(&["SELECT", "INSERT"]);
    let new = grant(&["INSERT", "SELECT"]);
    assert!(old.diff(&new).unwrap().is_none());
    assert!(old.diff(&old).unwrap().is_none());
}

#[test]
fn column_sets_compare_without_order() {
    let a = SinglePriv::new("SELECT", vec!["a".to_string(), "b".to_string()]);
    let b = SinglePriv::new("SELECT", vec!["b".to_string(), "a".to_string(), "a".to_string()]);
    let c = SinglePriv::new("SELECT", vec!["a".to_string()]);
    assert!(a.same(&b));
    assert!(!a.same(&c));
    assert!(!a.same(&priv_named("SELECT")));
}

#[test]
fn single_priv_create_drop_alter() {
    let base = grant(&["SELECT"]);
    let created = priv_named("UPDATE").create(&base);
    assert_eq!(summary(&created), vec![(true, "UPDATE".to_string())]);
    let dropped = priv_named("UPDATE").drop(&base);
    assert_eq!(summary(&dropped), vec![(false, "UPDATE".to_string())]);
    let altered = priv_named("SELECT").alter(&base, priv_named("INSERT"));
    assert_eq!(summary(&altered), vec![(false, "SELECT".to_string()), (true, "INSERT".to_string())]);
}

#[test]
fn created_and_dropped_grants_plan_every_privilege() {
    let g = grant(&["SELECT", "INSERT"]);
    let created = renovate::PrivilegeDiff { old: None, new: Some(g.clone()), diff: String::new() };
    assert_eq!(
        summary(&created.plan()),
        vec![(true, "SELECT".to_string()), (true, "INSERT".to_string())]
    );
    let dropped = renovate::PrivilegeDiff { old: Some(g), new: None, diff: String::new() };
    assert_eq!(
        summary(&dropped.plan()),
        vec![(false, "SELECT".to_string()), (false, "INSERT".to_string())]
    );
}

#[test]
fn revokes_precede_grants() {
    let old = grant(&["SELECT", "INSERT", "DELETE"]);
    let new = grant(&["UPDATE", "SELECT", "TRUNCATE"]);
    let plan = summary(&old.diff(&new).unwrap().unwrap().plan());
    assert_eq!(
        plan,
        vec![
            (false, "INSERT".to_string()),
            (false, "DELETE".to_string()),
            (true, "UPDATE".to_string()),
            (true, "TRUNCATE".to_string()),
        ]
    );
}

#[test]
fn grant_errors() {
    let old = grant(&["SELECT"]);
    let other = Privilege::from_statement(&Statement::Grant(GrantStmt {
        is_grant: true,
        privileges: vec![priv_named("SELECT")],
        target: "TABLE public.bar".to_string(),
        grantees: "app".to_string(),
    }))
    .unwrap();
    assert!(matches!(old.diff(&other), Err(RenovateError::IdentityMismatch)));
    let revoke = Statement::Grant(GrantStmt {
        is_grant: false,
        privileges: vec![],
        target: "TABLE public.bar".to_string(),
        grantees: "app".to_string(),
    });
    assert!(matches!(Privilege::from_statement(&revoke), Err(RenovateError::KindMismatch(_))));
}

#[test]
fn single_priv_reads_name_and_columns() {
    let p = SinglePriv::from_str("SELECT").unwrap();
    assert_eq!(p.name, "SELECT");
    assert!(p.cols.is_empty());
    let p = SinglePriv::from_str("UPDATE(a, b,c)").unwrap();
    assert_eq!(p.name, "UPDATE");
    assert_eq!(p.cols, vec!["a".to_string(), "b".to_string(), "c".to_string()]);
}

#[test]
fn single_priv_rejects_malformed_text() {
    for bad in ["", "SELECT(a", "(a)", "SELECT(a,)", "SELECT()", "SEL ECT", "SELECT(a)b"] {
        assert!(
            matches!(SinglePriv::from_str(bad), Err(RenovateError::Parse(_))),
            "accepted {:?}",
            bad
        );
    }
}
