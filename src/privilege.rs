use crate::error::RenovateError;
use crate::index::{change_text, describe_change};
use crate::statement::{GrantStmt, Statement};
use vstd::prelude::*;

verus! {

/// One privilege: its name and the set of columns it is limited to.
pub type PrivView = (Seq<char>, Set<Seq<char>>);

/// A grant statement: grant or revoke, its privileges, target and grantees.
pub type GrantView = (bool, Seq<PrivView>, Seq<char>, Seq<char>);

/// One `<privilege> [(columns)]` entry of a `GRANT` or `REVOKE`. The order of
/// the columns, and any repetition, does not matter.
#[derive(Debug, Clone)]
pub struct SinglePriv {
    pub name: String,
    pub cols: Vec<String>,
}

pub open spec fn strings_view(v: Seq<String>) -> Seq<Seq<char>> {
    v.map_values(|s: String| s@)
}

impl View for SinglePriv {
    type V = PrivView;

    open spec fn view(&self) -> PrivView {
        (self.name@, Set::new(|c: Seq<char>| strings_view(self.cols@).contains(c)))
    }
}

pub open spec fn privs_view(v: Seq<SinglePriv>) -> Seq<PrivView> {
    v.map_values(|p: SinglePriv| p@)
}

impl View for GrantStmt {
    type V = GrantView;

    open spec fn view(&self) -> GrantView {
        (self.is_grant, privs_view(self.privileges@), self.target@, self.grantees@)
    }
}

/// The statement that grants (`is_grant`) or revokes exactly one privilege
/// on the target and grantees of `base`.
pub open spec fn change_of(p: PrivView, base: GrantView, is_grant: bool) -> GrantView {
    (is_grant, seq![p], base.2, base.3)
}

/// The changes for the privileges of `a` that `b` lacks, in the order of `a`.
pub open spec fn changes(
    a: Seq<PrivView>,
    b: Seq<PrivView>,
    base: GrantView,
    is_grant: bool,
) -> Seq<GrantView>
    decreases a.len(),
{
    if a.len() == 0 {
        Seq::empty()
    } else {
        let rest = changes(a.drop_last(), b, base, is_grant);
        if b.contains(a.last()) {
            rest
        } else {
            rest.push(change_of(a.last(), base, is_grant))
        }
    }
}

/// The privileges of an optional statement; none when it is absent.
pub open spec fn privs_of(g: Option<GrantView>) -> Seq<PrivView> {
    match g {
        Some(s) => s.1,
        None => Seq::empty(),
    }
}

/// The plan of a privilege delta: a revoke for each privilege that only the
/// old statement holds, then a grant for each that only the new one holds.
pub open spec fn privilege_plan(old: Option<GrantView>, new: Option<GrantView>) -> Seq<GrantView> {
    let drops = match old {
        Some(o) => changes(o.1, privs_of(new), o, false),
        None => Seq::empty(),
    };
    let creates = match new {
        Some(n) => changes(n.1, privs_of(old), n, true),
        None => Seq::empty(),
    };
    drops + creates
}

fn copy_strings(v: &Vec<String>) -> (r: Vec<String>)
    ensures
        r@ == v@,
{
    let mut out: Vec<String> = Vec::new();
    let mut i: usize = 0;
    while i < v.len()
        invariant
            i <= v.len(),
            out@ == v@.take(i as int),
        decreases v.len() - i,
    {
        out.push(v[i].clone());
        i = i + 1;
        assert(out@ =~= v@.take(i as int));
    }
    assert(out@ =~= v@);
    out
}

fn string_in(s: &String, v: &Vec<String>) -> (r: bool)
    ensures
        r == strings_view(v@).contains(s@),
{
    let mut i: usize = 0;
    while i < v.len()
        invariant
            i <= v.len(),
            forall|k: int| 0 <= k < i ==> v@[k]@ != s@,
        decreases v.len() - i,
    {
        if v[i] == *s {
            assert(strings_view(v@)[i as int] == s@);
            return true;
        }
        i = i + 1;
    }
    assert forall|k: int| 0 <= k < strings_view(v@).len() implies strings_view(v@)[k] != s@ by {
        assert(strings_view(v@)[k] == v@[k]@);
    }
    false
}

fn all_in(a: &Vec<String>, b: &Vec<String>) -> (r: bool)
    ensures
        r == (forall|c: Seq<char>| strings_view(a@).contains(c) ==> strings_view(b@).contains(c)),
{
    let mut i: usize = 0;
    while i < a.len()
        invariant
            i <= a.len(),
            forall|k: int| 0 <= k < i ==> strings_view(b@).contains(#[trigger] a@[k]@),
        decreases a.len() - i,
    {
        if !string_in(&a[i], b) {
            assert(strings_view(a@)[i as int] == a@[i as int]@);
            return false;
        }
        i = i + 1;
    }
    assert forall|c: Seq<char>| strings_view(a@).contains(c) implies strings_view(b@).contains(c) by {
        let k = choose|k: int| 0 <= k < strings_view(a@).len() && strings_view(a@)[k] == c;
        assert(a@[k]@ == c);
    }
    true
}

impl SinglePriv {
    pub fn new(name: &str, cols: Vec<String>) -> (r: SinglePriv)
        ensures
            r.name@ == name@,
            r.cols@ == cols@,
    {
        SinglePriv { name: name.to_owned(), cols }
    }

    pub fn duplicate(&self) -> (r: SinglePriv)
        ensures
            r@ == self@,
            r.cols@ == self.cols@,
    {
        SinglePriv { name: self.name.clone(), cols: copy_strings(&self.cols) }
    }

    /// Equality by name and column set.
    pub fn same(&self, other: &SinglePriv) -> (r: bool)
        ensures
            r == (self@ == other@),
    {
        if !(self.name == other.name) {
            return false;
        }
        let sub = all_in(&self.cols, &other.cols);
        let sup = all_in(&other.cols, &self.cols);
        if sub && sup {
            assert(self@.1 =~= other@.1);
            true
        } else {
            proof {
                if sub {
                    let c = choose|c: Seq<char>|
                        strings_view(other.cols@).contains(c) && !strings_view(
                            self.cols@,
                        ).contains(c);
                    assert(other@.1.contains(c) && !self@.1.contains(c));
                } else {
                    let c = choose|c: Seq<char>|
                        strings_view(self.cols@).contains(c) && !strings_view(
                            other.cols@,
                        ).contains(c);
                    assert(self@.1.contains(c) && !other@.1.contains(c));
                }
            }
            false
        }
    }

    /// The base statement with its flag forced to `is_grant` and exactly this
    /// privilege listed.
    fn generate_change(self, item: &Privilege, is_grant: bool) -> (r: GrantStmt)
        ensures
            r@ == change_of(self@, item@, is_grant),
    {
        let privileges = vec![self];
        let r = GrantStmt {
            is_grant,
            privileges,
            target: item.node.target.clone(),
            grantees: item.node.grantees.clone(),
        };
        assert(r@.1 =~= seq![self@]);
        r
    }

    /// The revoke of this privilege alone, on the target of `item`.
    pub fn drop(self, item: &Privilege) -> (r: Vec<GrantStmt>)
        ensures
            r@.map_values(|g: GrantStmt| g@) == seq![change_of(self@, item@, false)],
    {
        let r = vec![self.generate_change(item, false)];
        assert(r@.map_values(|g: GrantStmt| g@) =~= seq![change_of(self@, item@, false)]);
        r
    }

    /// The grant of this privilege alone, on the target of `item`.
    pub fn create(self, item: &Privilege) -> (r: Vec<GrantStmt>)
        ensures
            r@.map_values(|g: GrantStmt| g@) == seq![change_of(self@, item@, true)],
    {
        let r = vec![self.generate_change(item, true)];
        assert(r@.map_values(|g: GrantStmt| g@) =~= seq![change_of(self@, item@, true)]);
        r
    }

    /// An altered privilege: the revoke of this one, then the grant of
    /// `remote`.
    pub fn alter(self, item: &Privilege, remote: SinglePriv) -> (r: Vec<GrantStmt>)
        ensures
            r@.map_values(|g: GrantStmt| g@) == seq![
                change_of(self@, item@, false),
                change_of(remote@, item@, true),
            ],
    {
        let ghost (old_view, new_view) = (self@, remote@);
        let revoke = self.generate_change(item, false);
        let grant = remote.generate_change(item, true);
        let migrations = vec![revoke, grant];
        assert(migrations@.map_values(|g: GrantStmt| g@) =~= seq![
            change_of(old_view, item@, false),
            change_of(new_view, item@, true),
        ]);
        migrations
    }
}

fn priv_in(p: &SinglePriv, v: &Vec<SinglePriv>) -> (r: bool)
    ensures
        r == privs_view(v@).contains(p@),
{
    let mut i: usize = 0;
    while i < v.len()
        invariant
            i <= v.len(),
            forall|k: int| 0 <= k < i ==> v@[k]@ != p@,
        decreases v.len() - i,
    {
        if v[i].same(p) {
            assert(privs_view(v@)[i as int] == p@);
            return true;
        }
        i = i + 1;
    }
    assert forall|k: int| 0 <= k < privs_view(v@).len() implies privs_view(v@)[k] != p@ by {
        assert(privs_view(v@)[k] == v@[k]@);
    }
    false
}

/// A `GRANT` statement: its target, its grantees, and the privileges it
/// bundles, each diffed and planned on its own.
#[derive(Debug, Clone)]
pub struct Privilege {
    pub node: GrantStmt,
}

impl View for Privilege {
    type V = GrantView;

    open spec fn view(&self) -> GrantView {
        self.node@
    }
}

/// A change to one grant: `old` absent means created, `new` absent means
/// dropped, both present means altered.
#[derive(Debug, Clone)]
pub struct PrivilegeDiff {
    pub old: Option<Privilege>,
    pub new: Option<Privilege>,
    pub diff: String,
}

impl GrantStmt {
    pub fn duplicate(&self) -> (r: GrantStmt)
        ensures
            r@ == self@,
    {
        let mut privileges: Vec<SinglePriv> = Vec::new();
        let mut i: usize = 0;
        while i < self.privileges.len()
            invariant
                i <= self.privileges.len(),
                privs_view(privileges@) == privs_view(self.privileges@).take(i as int),
            decreases self.privileges.len() - i,
        {
            let ghost before = privileges@;
            let p = self.privileges[i].duplicate();
            privileges.push(p);
            assert(privs_view(privileges@) =~= privs_view(before).push(p@));
            i = i + 1;
            assert(privs_view(privileges@) =~= privs_view(self.privileges@).take(i as int));
        }
        assert(privs_view(privileges@) =~= privs_view(self.privileges@));
        GrantStmt {
            is_grant: self.is_grant,
            privileges,
            target: self.target.clone(),
            grantees: self.grantees.clone(),
        }
    }
}

/// Whether two grant statements hold the same privileges, as sets.
pub open spec fn same_privileges(a: Seq<PrivView>, b: Seq<PrivView>) -> bool {
    forall|p: PrivView| a.contains(p) <==> b.contains(p)
}

impl Privilege {
    /// Wraps a `GRANT` statement; any other statement is a kind mismatch.
    pub fn from_statement(stmt: &Statement) -> (r: Result<Privilege, RenovateError>)
        ensures
            r is Ok <==> (stmt matches Statement::Grant(s) && s.is_grant),
            r matches Ok(p) ==> (stmt matches Statement::Grant(s) && p@ == s@),
            r matches Err(e) ==> e is KindMismatch,
    {
        match stmt {
            Statement::Grant(s) => {
                if s.is_grant {
                    Ok(Privilege { node: s.duplicate() })
                } else {
                    Err(RenovateError::KindMismatch(s.target.clone()))
                }
            },
            Statement::Index(s) => Err(RenovateError::KindMismatch(s.sql.clone())),
            Statement::AlterTable(s) => Err(RenovateError::KindMismatch(s.sql.clone())),
            Statement::Other(t) => Err(RenovateError::KindMismatch(t.clone())),
        }
    }

    /// The statement this grant wraps.
    pub fn inner(&self) -> (r: &GrantStmt)
        ensures
            r@ == self@,
    {
        &self.node
    }

    pub fn duplicate(&self) -> (r: Privilege)
        ensures
            r@ == self@,
    {
        Privilege { node: self.node.duplicate() }
    }

    fn all_privs_in(a: &Vec<SinglePriv>, b: &Vec<SinglePriv>) -> (r: bool)
        ensures
            r == (forall|p: PrivView| privs_view(a@).contains(p) ==> privs_view(b@).contains(p)),
    {
        let mut i: usize = 0;
        while i < a.len()
            invariant
                i <= a.len(),
                forall|k: int| 0 <= k < i ==> privs_view(b@).contains(#[trigger] a@[k]@),
            decreases a.len() - i,
        {
            if !priv_in(&a[i], b) {
                assert(privs_view(a@)[i as int] == a@[i as int]@);
                return false;
            }
            i = i + 1;
        }
        assert forall|p: PrivView| privs_view(a@).contains(p) implies privs_view(b@).contains(p) by {
            let k = choose|k: int| 0 <= k < privs_view(a@).len() && privs_view(a@)[k] == p;
            assert(a@[k]@ == p);
        }
        true
    }

    /// Compares this grant with another version of it: an error when target
    /// or grantees differ, nothing when both hold the same set of privileges,
    /// and otherwise the change from `self` to `remote`.
    pub fn diff(&self, remote: &Privilege) -> (r: Result<Option<PrivilegeDiff>, RenovateError>)
        ensures
            r is Err <==> (self@.2 != remote@.2 || self@.3 != remote@.3),
            r matches Err(e) ==> e is IdentityMismatch,
            r matches Ok(None) <==> (self@.2 == remote@.2 && self@.3 == remote@.3
                && same_privileges(self@.1, remote@.1)),
            r matches Ok(Some(d)) ==> {
                &&& d.old_view() == Some(self@)
                &&& d.new_view() == Some(remote@)
                &&& d.diff@ == change_text(
                    names_of(self.node.privileges@),
                    names_of(remote.node.privileges@),
                )
            },
    {
        if !(self.node.target == remote.node.target) || !(self.node.grantees == remote.node.grantees) {
            return Err(RenovateError::IdentityMismatch);
        }
        let sub = Privilege::all_privs_in(&self.node.privileges, &remote.node.privileges);
        let sup = Privilege::all_privs_in(&remote.node.privileges, &self.node.privileges);
        if sub && sup {
            Ok(None)
        } else {
            let old_names = names_text(&self.node.privileges);
            let new_names = names_text(&remote.node.privileges);
            let diff = describe_change(old_names.as_str(), new_names.as_str());
            Ok(Some(PrivilegeDiff {
                old: Some(self.duplicate()),
                new: Some(remote.duplicate()),
                diff,
            }))
        }
    }
}

/// The privilege names of a list, each followed by a space.
pub open spec fn names_of(v: Seq<SinglePriv>) -> Seq<char>
    decreases v.len(),
{
    if v.len() == 0 {
        Seq::empty()
    } else {
        names_of(v.drop_last()) + v.last().name@ + " "@
    }
}

fn names_text(v: &Vec<SinglePriv>) -> (r: String)
    ensures
        r@ == names_of(v@),
{
    let mut s = String::new();
    let mut i: usize = 0;
    while i < v.len()
        invariant
            i <= v.len(),
            s@ == names_of(v@.take(i as int)),
        decreases v.len() - i,
    {
        s.append(v[i].name.as_str());
        s.append(" ");
        assert(v@.take(i as int + 1).drop_last() =~= v@.take(i as int));
        i = i + 1;
    }
    assert(v@.take(v@.len() as int) =~= v@);
    s
}

fn push_changes(
    out: &mut Vec<GrantStmt>,
    a: &Vec<SinglePriv>,
    b: &Vec<SinglePriv>,
    base: &Privilege,
    is_grant: bool,
)
    ensures
        final(out)@.map_values(|g: GrantStmt| g@) == old(out)@.map_values(|g: GrantStmt| g@)
            + changes(privs_view(a@), privs_view(b@), base@, is_grant),
{
    let ghost start = old(out)@.map_values(|g: GrantStmt| g@);
    let mut i: usize = 0;
    while i < a.len()
        invariant
            i <= a.len(),
            out@.map_values(|g: GrantStmt| g@) == start + changes(
                privs_view(a@).take(i as int),
                privs_view(b@),
                base@,
                is_grant,
            ),
        decreases a.len() - i,
    {
        assert(privs_view(a@).take(i as int + 1).drop_last() =~= privs_view(a@).take(i as int));
        assert(privs_view(a@).take(i as int + 1).last() == a@[i as int]@);
        if !priv_in(&a[i], b) {
            let p = a[i].duplicate();
            let g = p.generate_change(base, is_grant);
            let ghost before = out@;
            out.push(g);
            assert(out@.map_values(|g: GrantStmt| g@) =~= before.map_values(|g: GrantStmt| g@).push(
                g@,
            ));
            assert(out@.map_values(|g: GrantStmt| g@) =~= start + changes(
                privs_view(a@).take(i as int + 1),
                privs_view(b@),
                base@,
                is_grant,
            ));
        }
        i = i + 1;
    }
    assert(privs_view(a@).take(a@.len() as int) =~= privs_view(a@));
}

impl PrivilegeDiff {
    pub open spec fn old_view(&self) -> Option<GrantView> {
        match self.old {
            Some(p) => Some(p@),
            None => None,
        }
    }

    pub open spec fn new_view(&self) -> Option<GrantView> {
        match self.new {
            Some(p) => Some(p@),
            None => None,
        }
    }

    /// The ordered statements that carry out this change: a revoke for each
    /// privilege only the old grant holds, then a grant for each privilege
    /// only the new one holds; privileges held by both are left alone.
    pub fn plan(&self) -> (r: Vec<GrantStmt>)
        ensures
            r@.map_values(|g: GrantStmt| g@) == privilege_plan(self.old_view(), self.new_view()),
    {
        let none: Vec<SinglePriv> = Vec::new();
        let mut out: Vec<GrantStmt> = Vec::new();
        assert(privs_view(none@) =~= Seq::<PrivView>::empty());
        let old_privs = match &self.old {
            Some(o) => &o.node.privileges,
            None => &none,
        };
        let new_privs = match &self.new {
            Some(n) => &n.node.privileges,
            None => &none,
        };
        assert(privs_view(old_privs@) == privs_of(self.old_view()));
        assert(privs_view(new_privs@) == privs_of(self.new_view()));
        if let Some(o) = &self.old {
            push_changes(&mut out, &o.node.privileges, new_privs, o, false);
        }
        let ghost mid = out@.map_values(|g: GrantStmt| g@);
        if let Some(n) = &self.new {
            push_changes(&mut out, &n.node.privileges, old_privs, n, true);
        }
        assert(out@.map_values(|g: GrantStmt| g@) =~= privilege_plan(
            self.old_view(),
            self.new_view(),
        ));
        out
    }
}

} // verus!
