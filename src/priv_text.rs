//! The text form of one privilege entry: `<privilege>` or
//! `<privilege>(<column>, <column>, ...)`.
use crate::error::RenovateError;
use crate::privilege::{strings_view, SinglePriv};
use vstd::prelude::*;

verus! {

/// Characters that cannot stand inside a privilege or column name.
pub open spec fn is_special(c: char) -> bool {
    c == '(' || c == ')' || c == ',' || c == ' '
}

/// A non-empty name without special characters.
pub open spec fn is_word(w: Seq<char>) -> bool {
    w.len() > 0 && forall|i: int| 0 <= i < w.len() ==> !is_special(#[trigger] w[i])
}

/// `w` without its leading spaces.
pub open spec fn trim_start(w: Seq<char>) -> Seq<char>
    decreases w.len(),
{
    if w.len() > 0 && w[0] == ' ' {
        trim_start(w.skip(1))
    } else {
        w
    }
}

/// The pieces of `cur + s` between commas, where `cur` holds no comma.
pub open spec fn split_from(cur: Seq<char>, s: Seq<char>) -> Seq<Seq<char>>
    decreases s.len(),
{
    if s.len() == 0 {
        seq![cur]
    } else if s[0] == ',' {
        seq![cur] + split_from(Seq::empty(), s.skip(1))
    } else {
        split_from(cur.push(s[0]), s.skip(1))
    }
}

/// The pieces of `s` between commas.
pub open spec fn split_commas(s: Seq<char>) -> Seq<Seq<char>> {
    split_from(Seq::empty(), s)
}

/// The column list inside the parentheses: comma-separated names, each of
/// which may be preceded by spaces.
pub open spec fn cols_of(inner: Seq<char>) -> Seq<Seq<char>> {
    split_commas(inner).map_values(|p: Seq<char>| trim_start(p))
}

/// Whether `k` is the position of the first `(` of `s`.
pub open spec fn first_paren(s: Seq<char>, k: int) -> bool {
    0 <= k < s.len() && s[k] == '(' && forall|j: int| 0 <= j < k ==> s[j] != '('
}

/// The name and columns that a privilege entry text stands for, if it is
/// well formed.
pub open spec fn parse_priv(s: Seq<char>) -> Option<(Seq<char>, Seq<Seq<char>>)> {
    if forall|j: int| 0 <= j < s.len() ==> s[j] != '(' {
        if is_word(s) {
            Some((s, Seq::empty()))
        } else {
            None
        }
    } else {
        let k = choose|k: int| first_paren(s, k);
        let name = s.take(k);
        let rest = s.skip(k + 1);
        if rest.len() > 0 && rest.last() == ')' && is_word(name) && (forall|i: int|
            0 <= i < cols_of(rest.drop_last()).len() ==> is_word(
                #[trigger] cols_of(rest.drop_last())[i],
            )) {
            Some((name, cols_of(rest.drop_last())))
        } else {
            None
        }
    }
}

fn check_word(s: &str) -> (r: bool)
    ensures
        r == is_word(s@),
{
    let n = s.unicode_len();
    if n == 0 {
        return false;
    }
    let mut i: usize = 0;
    while i < n
        invariant
            n == s@.len(),
            i <= n,
            forall|j: int| 0 <= j < i ==> !is_special(#[trigger] s@[j]),
        decreases n - i,
    {
        let c = s.get_char(i);
        if c == '(' || c == ')' || c == ',' || c == ' ' {
            assert(is_special(s@[i as int]));
            return false;
        }
        i = i + 1;
    }
    true
}

fn trim_spaces(s: &str) -> (r: String)
    ensures
        r@ == trim_start(s@),
{
    let n = s.unicode_len();
    let mut i: usize = 0;
    assert(s@.skip(0) =~= s@);
    while i < n && s.get_char(i) == ' '
        invariant
            n == s@.len(),
            i <= n,
            trim_start(s@) == trim_start(s@.skip(i as int)),
        decreases n - i,
    {
        assert(s@.skip(i as int).skip(1) =~= s@.skip(i as int + 1));
        i = i + 1;
    }
    let r = s.substring_char(i, n).to_owned();
    assert(s@.subrange(i as int, n as int) =~= s@.skip(i as int));
    r
}

fn split_cols(s: &str) -> (r: Vec<String>)
    ensures
        strings_view(r@) == cols_of(s@),
{
    let n = s.unicode_len();
    let mut pieces: Vec<String> = Vec::new();
    let mut start: usize = 0;
    let mut i: usize = 0;
    assert(s@.skip(0) =~= s@);
    assert(s@.subrange(0, 0) =~= Seq::<char>::empty());
    assert(strings_view(pieces@) =~= Seq::<Seq<char>>::empty());
    assert(Seq::<Seq<char>>::empty() + cols_of(s@) =~= cols_of(s@));
    while i < n
        invariant
            n == s@.len(),
            start <= i <= n,
            strings_view(pieces@) + split_from(s@.subrange(start as int, i as int), s@.skip(
                i as int,
            )).map_values(|p: Seq<char>| trim_start(p)) == cols_of(s@),
        decreases n - i,
    {
        let ghost cur = s@.subrange(start as int, i as int);
        assert(s@.skip(i as int).skip(1) =~= s@.skip(i as int + 1));
        if s.get_char(i) == ',' {
            let piece = trim_spaces(s.substring_char(start, i));
            let ghost before = pieces@;
            pieces.push(piece);
            assert(strings_view(pieces@) =~= strings_view(before).push(trim_start(cur)));
            assert(s@.subrange(i as int + 1, i as int + 1) =~= Seq::<char>::empty());
            assert(split_from(cur, s@.skip(i as int)) == seq![cur] + split_from(
                Seq::empty(),
                s@.skip(i as int + 1),
            ));
            assert((seq![cur] + split_from(Seq::empty(), s@.skip(i as int + 1))).map_values(
                |p: Seq<char>| trim_start(p),
            ) =~= seq![trim_start(cur)] + split_from(Seq::empty(), s@.skip(i as int + 1)).map_values(
                |p: Seq<char>| trim_start(p),
            ));
            assert(strings_view(pieces@) + split_from(
                Seq::empty(),
                s@.skip(i as int + 1),
            ).map_values(|p: Seq<char>| trim_start(p)) =~= strings_view(before) + (seq![cur]
                + split_from(Seq::empty(), s@.skip(i as int + 1))).map_values(
                |p: Seq<char>| trim_start(p),
            ));
            start = i + 1;
        } else {
            assert(cur.push(s@[i as int]) =~= s@.subrange(start as int, i as int + 1));
        }
        i = i + 1;
    }
    let ghost cur = s@.subrange(start as int, n as int);
    let last = trim_spaces(s.substring_char(start, n));
    let ghost before = pieces@;
    pieces.push(last);
    assert(s@.skip(n as int) =~= Seq::<char>::empty());
    assert(split_from(cur, s@.skip(n as int)).map_values(|p: Seq<char>| trim_start(p)) =~= seq![
        trim_start(cur),
    ]);
    assert(strings_view(pieces@) =~= strings_view(before).push(trim_start(cur)));
    assert(strings_view(pieces@) =~= cols_of(s@));
    pieces
}

impl SinglePriv {
    /// Reads a privilege entry such as `SELECT` or `SELECT(a, b)`.
    pub fn from_str(s: &str) -> (r: Result<SinglePriv, RenovateError>)
        ensures
            r is Ok <==> parse_priv(s@) is Some,
            r matches Ok(p) ==> parse_priv(s@) == Some((p.name@, strings_view(p.cols@))),
            r matches Err(e) ==> e is Parse,
    {
        let n = s.unicode_len();
        let mut k: usize = 0;
        while k < n && s.get_char(k) != '('
            invariant
                n == s@.len(),
                k <= n,
                forall|j: int| 0 <= j < k ==> s@[j] != '(',
            decreases n - k,
        {
            k = k + 1;
        }
        if k == n {
            if check_word(s) {
                return Ok(SinglePriv { name: s.to_owned(), cols: Vec::new() });
            }
            return Err(RenovateError::Parse(s.to_owned()));
        }
        proof {
            assert(first_paren(s@, k as int));
            let c = choose|c: int| first_paren(s@, c);
            assert(c == k as int);
        }
        let name = s.substring_char(0, k);
        assert(name@ =~= s@.take(k as int));
        if k + 1 == n || s.get_char(n - 1) != ')' {
            assert(s@.skip(k as int + 1).len() > 0 ==> s@.skip(k as int + 1).last() == s@[n - 1]);
            return Err(RenovateError::Parse(s.to_owned()));
        }
        let inner = s.substring_char(k + 1, n - 1);
        assert(inner@ =~= s@.skip(k as int + 1).drop_last());
        if !check_word(name) {
            return Err(RenovateError::Parse(s.to_owned()));
        }
        assert(s@[k as int] == '(');
        let cols = split_cols(inner);
        let mut i: usize = 0;
        while i < cols.len()
            invariant
                i <= cols.len(),
                strings_view(cols@) == cols_of(inner@),
                inner@ == s@.skip(k as int + 1).drop_last(),
                name@ == s@.take(k as int),
                is_word(name@),
                !(forall|j: int| 0 <= j < s@.len() ==> s@[j] != '('),
                (choose|c: int| first_paren(s@, c)) == k as int,
                s@.skip(k as int + 1).len() > 0,
                s@.skip(k as int + 1).last() == ')',
                forall|j: int| 0 <= j < i ==> is_word(#[trigger] cols_of(inner@)[j]),
            decreases cols.len() - i,
        {
            assert(strings_view(cols@)[i as int] == cols@[i as int]@);
            if !check_word(cols[i].as_str()) {
                assert(!is_word(cols_of(s@.skip(k as int + 1).drop_last())[i as int]));
                return Err(RenovateError::Parse(s.to_owned()));
            }
            i = i + 1;
        }
        Ok(SinglePriv { name: name.to_owned(), cols })
    }
}

} // verus!
