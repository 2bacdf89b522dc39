//! Properties that relate several operations of the planner.
use crate::index::{create_index_sql, differs, drop_index_sql, index_plan, IndexView};
use crate::privilege::{change_of, changes, privilege_plan, same_privileges, GrantView, PrivView};
use crate::table_rls::TableRlsView;
use vstd::prelude::*;

verus! {

/// Comparing any object with itself finds no change: an index or a
/// row-security toggle equals itself, and a grant holds the same privileges
/// as itself.
pub proof fn self_diff_is_empty(i: IndexView, t: TableRlsView, g: GrantView)
    ensures
        !differs(i, i),
        !differs(t, t),
        same_privileges(g.1, g.1),
{
}

proof fn changes_facts(a: Seq<PrivView>, b: Seq<PrivView>, base: GrantView, is_grant: bool)
    ensures
        forall|k: int|
            0 <= k < changes(a, b, base, is_grant).len() ==> {
                let c = #[trigger] changes(a, b, base, is_grant)[k];
                &&& c.1.len() == 1
                &&& c == change_of(c.1[0], base, is_grant)
                &&& a.contains(c.1[0])
                &&& !b.contains(c.1[0])
            },
        forall|p: PrivView|
            a.contains(p) && !b.contains(p) ==> #[trigger] changes(a, b, base, is_grant).contains(
                change_of(p, base, is_grant),
            ),
    decreases a.len(),
{
    if a.len() > 0 {
        let rest = a.drop_last();
        changes_facts(rest, b, base, is_grant);
        assert forall|p: PrivView| a.contains(p) && !b.contains(p) implies changes(
            a,
            b,
            base,
            is_grant,
        ).contains(change_of(p, base, is_grant)) by {
            let j = choose|j: int| 0 <= j < a.len() && a[j] == p;
            if j < a.len() - 1 {
                assert(rest[j] == p);
                assert(rest.contains(p));
                let r = changes(rest, b, base, is_grant);
                assert(r.contains(change_of(p, base, is_grant)));
                let k = choose|k: int| 0 <= k < r.len() && r[k] == change_of(p, base, is_grant);
                let all = changes(a, b, base, is_grant);
                if !b.contains(a.last()) {
                    assert(all == r.push(change_of(a.last(), base, is_grant)));
                    assert(all[k] == r[k]);
                } else {
                    assert(all == r);
                }
                assert(all.contains(change_of(p, base, is_grant)));
            } else {
                let all = changes(a, b, base, is_grant);
                assert(all[all.len() - 1] == change_of(p, base, is_grant));
            }
        }
        assert forall|k: int| 0 <= k < changes(a, b, base, is_grant).len() implies ({
            let c = #[trigger] changes(a, b, base, is_grant)[k];
            &&& c.1.len() == 1
            &&& c == change_of(c.1[0], base, is_grant)
            &&& a.contains(c.1[0])
            &&& !b.contains(c.1[0])
        }) by {
            let r = changes(rest, b, base, is_grant);
            let c = changes(a, b, base, is_grant)[k];
            if k < r.len() {
                assert(c == r[k]);
                let j = choose|j: int| 0 <= j < rest.len() && rest[j] == c.1[0];
                assert(a[j] == c.1[0]);
            } else {
                assert(c == change_of(a.last(), base, is_grant));
                assert(a[a.len() - 1] == a.last());
            }
        }
    }
}

/// A grant whose privileges change is migrated privilege by privilege: each
/// privilege only the old grant holds gets a revoke, each privilege only the
/// new grant holds gets a grant, and every statement of the plan is one of
/// these, so privileges held by both get nothing.
pub proof fn composite_plan_is_additive(old: GrantView, new: GrantView)
    ensures
        forall|p: PrivView|
            old.1.contains(p) && !new.1.contains(p) ==> #[trigger] privilege_plan(
                Some(old),
                Some(new),
            ).contains(change_of(p, old, false)),
        forall|p: PrivView|
            new.1.contains(p) && !old.1.contains(p) ==> #[trigger] privilege_plan(
                Some(old),
                Some(new),
            ).contains(change_of(p, new, true)),
        forall|k: int|
            0 <= k < privilege_plan(Some(old), Some(new)).len() ==> {
                let c = #[trigger] privilege_plan(Some(old), Some(new))[k];
                let p = c.1[0];
                &&& c.1.len() == 1
                &&& (c == change_of(p, old, false) && old.1.contains(p) && !new.1.contains(p))
                    || (c == change_of(p, new, true) && new.1.contains(p) && !old.1.contains(p))
            },
{
    let drops = changes(old.1, new.1, old, false);
    let creates = changes(new.1, old.1, new, true);
    let plan = privilege_plan(Some(old), Some(new));
    changes_facts(old.1, new.1, old, false);
    changes_facts(new.1, old.1, new, true);
    assert(plan == drops + creates);
    assert forall|p: PrivView| old.1.contains(p) && !new.1.contains(p) implies plan.contains(
        change_of(p, old, false),
    ) by {
        assert(drops.contains(change_of(p, old, false)));
        let k = choose|k: int| 0 <= k < drops.len() && drops[k] == change_of(p, old, false);
        assert(plan[k] == drops[k]);
    }
    assert forall|p: PrivView| new.1.contains(p) && !old.1.contains(p) implies plan.contains(
        change_of(p, new, true),
    ) by {
        assert(creates.contains(change_of(p, new, true)));
        let k = choose|k: int| 0 <= k < creates.len() && creates[k] == change_of(p, new, true);
        assert(plan[drops.len() + k] == creates[k]);
    }
    assert forall|k: int| 0 <= k < plan.len() implies ({
        let c = #[trigger] plan[k];
        let p = c.1[0];
        &&& c.1.len() == 1
        &&& (c == change_of(p, old, false) && old.1.contains(p) && !new.1.contains(p))
            || (c == change_of(p, new, true) && new.1.contains(p) && !old.1.contains(p))
    }) by {
        if k < drops.len() {
            assert(plan[k] == drops[k]);
        } else {
            assert(plan[k] == creates[k - drops.len()]);
        }
    }
}

/// In every privilege plan, all revokes come before all grants.
pub proof fn privilege_plan_revokes_first(old: Option<GrantView>, new: Option<GrantView>)
    ensures
        forall|i: int, j: int|
            0 <= i < j < privilege_plan(old, new).len() && (#[trigger] privilege_plan(
                old,
                new,
            )[i]).0 ==> (#[trigger] privilege_plan(old, new)[j]).0,
{
    let plan = privilege_plan(old, new);
    let drops = match old {
        Some(o) => changes(o.1, crate::privilege::privs_of(new), o, false),
        None => Seq::empty(),
    };
    let creates = match new {
        Some(n) => changes(n.1, crate::privilege::privs_of(old), n, true),
        None => Seq::empty(),
    };
    if let Some(o) = old {
        changes_facts(o.1, crate::privilege::privs_of(new), o, false);
    }
    if let Some(n) = new {
        changes_facts(n.1, crate::privilege::privs_of(old), n, true);
    }
    assert(plan == drops + creates);
    assert forall|i: int, j: int|
        0 <= i < j < plan.len() && (#[trigger] plan[i]).0 implies (#[trigger] plan[j]).0 by {
        if i < drops.len() {
            assert(plan[i] == drops[i]);
        }
        assert(plan[j] == creates[j - drops.len()]);
    }
}

/// In every index plan, the drop of the old index comes first and the
/// creation of the new one last.
pub proof fn index_plan_drops_first(old: Option<IndexView>, new: Option<IndexView>)
    ensures
        index_plan(old, new).len() == (if old is Some { 1int } else { 0 }) + (if new is Some {
            1int
        } else {
            0
        }),
        old matches Some(o) ==> index_plan(old, new)[0] == drop_index_sql(o.0.0),
        new matches Some(n) ==> index_plan(old, new).last() == create_index_sql(n.1),
{
}

} // verus!
