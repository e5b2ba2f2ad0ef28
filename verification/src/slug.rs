//! Turning free-form names into URL- and DNS-friendly slugs.
use vstd::prelude::*;
use crate::text::{
    all_ascii, alphanumeric, ascii_lower_char, chars_of, is_alphanumeric, is_ascii_char, is_ascii_upper,
    lowercase, to_lowercase,
};

verus! {

/// A character of the lowercased name kept as is when alphanumeric, else a dash.
pub open spec fn dash_or_keep(c: char) -> char {
    if alphanumeric(c) { c } else { '-' }
}

/// The pieces of `t` between dashes, empty pieces included (as `str::split('-')`).
pub open spec fn dash_pieces(t: Seq<char>) -> Seq<Seq<char>>
    decreases t.len(),
{
    if t.len() == 0 {
        seq![Seq::<char>::empty()]
    } else {
        let init = dash_pieces(t.drop_last());
        if t.last() == '-' {
            init.push(Seq::<char>::empty())
        } else {
            init.update(init.len() - 1, init.last().push(t.last()))
        }
    }
}

/// `a` and `b` joined by a dash, where an empty side contributes nothing.
pub open spec fn join_two(a: Seq<char>, b: Seq<char>) -> Seq<char> {
    if b.len() == 0 {
        a
    } else if a.len() == 0 {
        b
    } else {
        a + seq!['-'] + b
    }
}

/// The non-empty pieces of `parts`, joined by single dashes.
pub open spec fn join_nonempty(parts: Seq<Seq<char>>) -> Seq<char>
    decreases parts.len(),
{
    if parts.len() == 0 {
        Seq::<char>::empty()
    } else {
        join_two(join_nonempty(parts.drop_last()), parts.last())
    }
}

/// Runs of dashes collapsed to one, leading and trailing dashes dropped.
pub open spec fn collapse_dashes(t: Seq<char>) -> Seq<char> {
    join_nonempty(dash_pieces(t))
}

/// The slug of a name: lowercased, non-alphanumerics turned into dashes,
/// dash runs collapsed and trimmed.
pub open spec fn slug_of(name: Seq<char>) -> Seq<char> {
    collapse_dashes(lowercase(name).map_values(|c: char| dash_or_keep(c)))
}

/// No leading or trailing dash, and no two dashes in a row.
pub open spec fn tidy_dashes(s: Seq<char>) -> bool {
    s.len() > 0 ==> {
        &&& s[0] != '-'
        &&& s.last() != '-'
        &&& forall|i: int| 0 <= i < s.len() - 1 ==> !(s[i] == '-' && #[trigger] s[i + 1] == '-')
    }
}

/// No piece between dashes holds a dash.
pub proof fn lemma_pieces_dashless(t: Seq<char>)
    ensures
        forall|k: int| 0 <= k < dash_pieces(t).len() ==> !(#[trigger] dash_pieces(t)[k]).contains('-'),
    decreases t.len(),
{
    if t.len() > 0 {
        lemma_pieces_dashless(t.drop_last());
        lemma_pieces_nonempty(t.drop_last());
        let init = dash_pieces(t.drop_last());
        if t.last() != '-' {
            let up = init.update(init.len() - 1, init.last().push(t.last()));
            assert forall|k: int| 0 <= k < up.len() implies !(#[trigger] up[k]).contains('-') by {
                if k == init.len() - 1 {
                    let p = init.last().push(t.last());
                    if p.contains('-') {
                        let j = choose|j: int| 0 <= j < p.len() && p[j] == '-';
                        if j < init.last().len() {
                            assert(init.last()[j] == '-');
                            assert(init[init.len() - 1].contains('-'));
                        }
                    }
                }
            }
        } else {
            let up = init.push(Seq::<char>::empty());
            assert forall|k: int| 0 <= k < up.len() implies !(#[trigger] up[k]).contains('-') by {
                if k < init.len() {
                    assert(up[k] == init[k]);
                }
            }
        }
    }
}

proof fn lemma_join_tidy(parts: Seq<Seq<char>>)
    requires
        forall|k: int| 0 <= k < parts.len() ==> !(#[trigger] parts[k]).contains('-'),
    ensures
        tidy_dashes(join_nonempty(parts)),
    decreases parts.len(),
{
    if parts.len() > 0 {
        let init = parts.drop_last();
        assert forall|k: int| 0 <= k < init.len() implies !(#[trigger] init[k]).contains('-') by {
            assert(init[k] == parts[k]);
        }
        lemma_join_tidy(init);
        let a = join_nonempty(init);
        let b = parts.last();
        assert(!parts[parts.len() - 1].contains('-'));
        assert forall|j: int| 0 <= j < b.len() implies b[j] != '-' by {
            if b[j] == '-' {
                assert(b.contains('-'));
            }
        }
        if b.len() > 0 && a.len() > 0 {
            let r = a + seq!['-'] + b;
            assert forall|i: int| 0 <= i < r.len() - 1 implies !(r[i] == '-' && #[trigger] r[i
                + 1] == '-') by {
                if i < a.len() - 1 {
                    assert(r[i] == a[i] && r[i + 1] == a[i + 1]);
                } else if i == a.len() - 1 {
                    assert(r[i] == a.last());
                } else if i == a.len() {
                    assert(r[i + 1] == b[0]);
                } else {
                    assert(r[i] == b[i - a.len() - 1]);
                }
            }
            assert(r[0] == a[0]);
            assert(r.last() == b.last());
        }
    }
}

/// A slug never begins or ends with a dash and never holds two dashes in a row.
pub proof fn law_slug_is_tidy(name: Seq<char>)
    ensures
        tidy_dashes(slug_of(name)),
{
    let t = lowercase(name).map_values(|c: char| dash_or_keep(c));
    lemma_pieces_dashless(t);
    lemma_join_tidy(dash_pieces(t));
}

proof fn lemma_pieces_nonempty(t: Seq<char>)
    ensures
        dash_pieces(t).len() >= 1,
    decreases t.len(),
{
    if t.len() > 0 {
        lemma_pieces_nonempty(t.drop_last());
    }
}

/// Pushing one character onto `t`: how the complete pieces and the current piece change.
proof fn lemma_pieces_push(t: Seq<char>, c: char)
    ensures
        dash_pieces(t.push(c)).len() >= 1,
        dash_pieces(t).len() >= 1,
        c == '-' ==> dash_pieces(t.push(c)).drop_last() == dash_pieces(t),
        c == '-' ==> dash_pieces(t.push(c)).last() == Seq::<char>::empty(),
        c != '-' ==> dash_pieces(t.push(c)).drop_last() == dash_pieces(t).drop_last(),
        c != '-' ==> dash_pieces(t.push(c)).last() == dash_pieces(t).last().push(c),
{
    lemma_pieces_nonempty(t);
    assert(t.push(c).drop_last() =~= t);
    let init = dash_pieces(t);
    if c == '-' {
        assert(dash_pieces(t.push(c)) == init.push(Seq::<char>::empty()));
        assert(init.push(Seq::<char>::empty()).drop_last() =~= init);
    } else {
        let up = init.update(init.len() - 1, init.last().push(c));
        assert(dash_pieces(t.push(c)) == up);
        assert(up.drop_last() =~= init.drop_last());
    }
}

proof fn lemma_join_two_push(a: Seq<char>, b: Seq<char>, c: char)
    requires
        b.len() > 0,
    ensures
        join_two(a, b.push(c)) == join_two(a, b).push(c),
{
    if a.len() == 0 {
    } else {
        assert(a + seq!['-'] + b.push(c) =~= (a + seq!['-'] + b).push(c));
    }
}

/// Every character of a piece of `t` is a character of `t` other than a
/// dash, so it has every property that all of those have.
proof fn lemma_pieces_chars(t: Seq<char>, p: spec_fn(char) -> bool)
    requires
        forall|i: int| 0 <= i < t.len() ==> #[trigger] t[i] == '-' || p(t[i]),
    ensures
        forall|k: int, j: int|
            0 <= k < dash_pieces(t).len() && 0 <= j < dash_pieces(t)[k].len() ==> p(
                #[trigger] dash_pieces(t)[k][j],
            ),
    decreases t.len(),
{
    if t.len() > 0 {
        let u = t.drop_last();
        assert forall|i: int| 0 <= i < u.len() implies #[trigger] u[i] == '-' || p(u[i]) by {
            assert(u[i] == t[i]);
        }
        lemma_pieces_chars(u, p);
        lemma_pieces_nonempty(u);
        let init = dash_pieces(u);
        if t.last() != '-' {
            assert(t[t.len() - 1] == t.last());
            let up = init.update(init.len() - 1, init.last().push(t.last()));
            assert forall|k: int, j: int| 0 <= k < up.len() && 0 <= j < up[k].len() implies p(
                #[trigger] up[k][j],
            ) by {
                if k == init.len() - 1 && j == init.last().len() {
                } else if k == init.len() - 1 {
                    assert(up[k][j] == init[k][j]);
                }
            }
        } else {
            let up = init.push(Seq::<char>::empty());
            assert forall|k: int, j: int| 0 <= k < up.len() && 0 <= j < up[k].len() implies p(
                #[trigger] up[k][j],
            ) by {
                assert(k < init.len());
            }
        }
    }
}

/// Every character of the parts joined by dashes is a dash or a character of
/// one of the parts.
proof fn lemma_join_chars(parts: Seq<Seq<char>>, p: spec_fn(char) -> bool)
    requires
        forall|k: int, j: int| 0 <= k < parts.len() && 0 <= j < parts[k].len() ==> p(#[trigger] parts[k][j]),
    ensures
        forall|i: int| 0 <= i < join_nonempty(parts).len() ==> #[trigger] join_nonempty(parts)[i] == '-' || p(
            join_nonempty(parts)[i],
        ),
    decreases parts.len(),
{
    if parts.len() > 0 {
        let init = parts.drop_last();
        assert forall|k: int, j: int| 0 <= k < init.len() && 0 <= j < init[k].len() implies p(
            #[trigger] init[k][j],
        ) by {
            assert(init[k] == parts[k]);
        }
        lemma_join_chars(init, p);
        let a = join_nonempty(init);
        let b = parts.last();
        assert forall|j: int| 0 <= j < b.len() implies p(#[trigger] b[j]) by {
            assert(b == parts[parts.len() - 1]);
            assert(p(parts[parts.len() - 1][j]));
        }
        if b.len() > 0 && a.len() > 0 {
            let r = a + seq!['-'] + b;
            assert forall|i: int| 0 <= i < r.len() implies #[trigger] r[i] == '-' || p(r[i]) by {
                if i < a.len() {
                    assert(r[i] == a[i]);
                } else if i > a.len() {
                    assert(r[i] == b[i - a.len() - 1]);
                }
            }
        }
    }
}

/// The parts joined by dashes are empty exactly when every part is.
proof fn lemma_join_empty(parts: Seq<Seq<char>>)
    ensures
        join_nonempty(parts).len() == 0 <==> forall|k: int| 0 <= k < parts.len() ==> (#[trigger] parts[k]).len() == 0,
    decreases parts.len(),
{
    if parts.len() > 0 {
        let init = parts.drop_last();
        lemma_join_empty(init);
        assert forall|k: int| 0 <= k < init.len() implies #[trigger] init[k] == parts[k] by {}
        if join_nonempty(parts).len() == 0 {
            assert forall|k: int| 0 <= k < parts.len() implies (#[trigger] parts[k]).len() == 0 by {
                if k < init.len() {
                    assert(init[k] == parts[k]);
                }
            }
        }
        if forall|k: int| 0 <= k < parts.len() ==> (#[trigger] parts[k]).len() == 0 {
            assert(parts[parts.len() - 1].len() == 0);
            assert forall|k: int| 0 <= k < init.len() implies (#[trigger] init[k]).len() == 0 by {
                assert(init[k] == parts[k]);
            }
        }
    }
}

/// Every piece of `t` is empty exactly when `t` holds dashes only.
proof fn lemma_pieces_empty(t: Seq<char>)
    ensures
        (forall|k: int| 0 <= k < dash_pieces(t).len() ==> (#[trigger] dash_pieces(t)[k]).len() == 0)
            <==> (forall|i: int| 0 <= i < t.len() ==> #[trigger] t[i] == '-'),
    decreases t.len(),
{
    if t.len() > 0 {
        let u = t.drop_last();
        lemma_pieces_empty(u);
        lemma_pieces_nonempty(u);
        let init = dash_pieces(u);
        assert forall|i: int| 0 <= i < u.len() implies #[trigger] u[i] == t[i] by {}
        if t.last() == '-' {
            let up = init.push(Seq::<char>::empty());
            assert(dash_pieces(t) == up);
            if forall|k: int| 0 <= k < up.len() ==> (#[trigger] up[k]).len() == 0 {
                assert forall|k: int| 0 <= k < init.len() implies (#[trigger] init[k]).len() == 0 by {
                    assert(up[k] == init[k]);
                }
                assert forall|i: int| 0 <= i < t.len() implies #[trigger] t[i] == '-' by {
                    if i < u.len() {
                        assert(u[i] == t[i]);
                    }
                }
            }
            if forall|i: int| 0 <= i < t.len() ==> #[trigger] t[i] == '-' {
                assert forall|i: int| 0 <= i < u.len() implies #[trigger] u[i] == '-' by {
                    assert(t[i] == '-');
                }
                assert forall|k: int| 0 <= k < up.len() implies (#[trigger] up[k]).len() == 0 by {
                    if k < init.len() {
                        assert(up[k] == init[k]);
                    }
                }
            }
        } else {
            let up = init.update(init.len() - 1, init.last().push(t.last()));
            assert(dash_pieces(t) == up);
            assert(up[init.len() - 1].len() > 0);
            assert(t[t.len() - 1] != '-');
        }
    }
}

/// Every character of a slug is a dash or an alphanumeric character of the
/// lowercased name.
pub proof fn law_slug_chars(name: Seq<char>)
    ensures
        forall|i: int| 0 <= i < slug_of(name).len() ==> #[trigger] slug_of(name)[i] == '-' || (alphanumeric(
            slug_of(name)[i],
        ) && lowercase(name).contains(slug_of(name)[i])),
{
    let l = lowercase(name);
    let t = l.map_values(|c: char| dash_or_keep(c));
    let p = |c: char| alphanumeric(c) && l.contains(c);
    assert forall|i: int| 0 <= i < t.len() implies #[trigger] t[i] == '-' || p(t[i]) by {
        assert(t[i] == dash_or_keep(l[i]));
        if alphanumeric(l[i]) {
            assert(l.contains(l[i]));
        }
    }
    lemma_pieces_chars(t, p);
    lemma_join_chars(dash_pieces(t), p);
}

/// A slug is empty exactly when the lowercased name holds no alphanumeric
/// character other than a dash (a dash is never kept as anything but a
/// separator).
pub proof fn law_slug_empty_iff_no_alphanumerics(name: Seq<char>)
    ensures
        slug_of(name).len() == 0 <==> forall|i: int| 0 <= i < lowercase(name).len() ==> (!alphanumeric(
            #[trigger] lowercase(name)[i],
        ) || lowercase(name)[i] == '-'),
{
    let l = lowercase(name);
    let t = l.map_values(|c: char| dash_or_keep(c));
    lemma_join_empty(dash_pieces(t));
    lemma_pieces_empty(t);
    if forall|i: int| 0 <= i < l.len() ==> (!alphanumeric(#[trigger] l[i]) || l[i] == '-') {
        assert forall|i: int| 0 <= i < t.len() implies #[trigger] t[i] == '-' by {
            assert(t[i] == dash_or_keep(l[i]));
        }
    }
    if forall|i: int| 0 <= i < t.len() ==> #[trigger] t[i] == '-' {
        assert forall|i: int| 0 <= i < l.len() implies (!alphanumeric(#[trigger] l[i]) || l[i] == '-') by {
            assert(t[i] == dash_or_keep(l[i]));
        }
    }
}

/// Collapsing a text that starts with no dash and holds no two dashes in a
/// row gives it back, less a trailing dash.
proof fn lemma_collapse_tidy(s: Seq<char>)
    requires
        s.len() > 0 ==> s[0] != '-',
        forall|i: int| 0 <= i < s.len() - 1 ==> !(s[i] == '-' && #[trigger] s[i + 1] == '-'),
    ensures
        join_nonempty(dash_pieces(s)) == (if s.len() > 0 && s.last() == '-' {
            s.drop_last()
        } else {
            s
        }),
    decreases s.len(),
{
    if s.len() == 0 {
        let ps = dash_pieces(s);
        assert(ps.drop_last() =~= Seq::<Seq<char>>::empty());
        assert(join_nonempty(ps) == join_two(join_nonempty(ps.drop_last()), ps.last()));
    } else {
        let u = s.drop_last();
        let c = s.last();
        assert forall|i: int| 0 <= i < u.len() - 1 implies !(u[i] == '-' && #[trigger] u[i + 1] == '-') by {
            assert(u[i] == s[i] && u[i + 1] == s[i + 1]);
        }
        if u.len() > 0 {
            assert(u[0] == s[0]);
        }
        lemma_collapse_tidy(u);
        lemma_pieces_push(u, c);
        assert(u.push(c) =~= s);
        let ps = dash_pieces(u);
        assert(ps.drop_last().push(ps.last()) =~= ps);
        assert(join_nonempty(ps) == join_two(join_nonempty(ps.drop_last()), ps.last()));
        let qs = dash_pieces(s);
        assert(qs.drop_last().push(qs.last()) =~= qs);
        assert(join_nonempty(qs) == join_two(join_nonempty(qs.drop_last()), qs.last()));
        if c == '-' {
            assert(u.len() > 0);
            assert(s[u.len() - 1] == u.last());
            assert(!(s[u.len() - 1] == '-' && s[u.len() as int] == '-'));
            assert(join_nonempty(qs) == join_nonempty(ps));
            assert(join_nonempty(qs) == s.drop_last());
        } else {
            if u.len() == 0 {
                assert(ps =~= seq![Seq::<char>::empty()]);
                assert(s =~= seq![c]);
                assert(ps.drop_last() =~= Seq::<Seq<char>>::empty());
                assert(ps.last().push(c) =~= seq![c]);
                assert(join_nonempty(qs.drop_last()) == Seq::<char>::empty());
                assert(join_nonempty(qs) =~= s);
            } else if u.last() == '-' {
                assert(ps.last() == Seq::<char>::empty());
                let j = join_nonempty(ps.drop_last());
                assert(j == u.drop_last());
                assert(u.len() >= 2) by {
                    if u.len() == 1 {
                        assert(u[0] == s[0]);
                    }
                }
                assert(ps.last().push(c) =~= seq![c]);
                assert(j + seq!['-'] + seq![c] =~= s);
                assert(join_nonempty(qs) =~= s);
            } else {
                lemma_pieces_empty_last(u);
                let l = ps.last();
                lemma_join_two_push(join_nonempty(ps.drop_last()), l, c);
                assert(join_nonempty(qs) == join_nonempty(ps).push(c));
                assert(join_nonempty(qs) =~= s);
            }
        }
    }
}

/// When a text ends in something other than a dash, its last piece is not
/// empty.
proof fn lemma_pieces_empty_last(t: Seq<char>)
    requires
        t.len() > 0,
        t.last() != '-',
    ensures
        dash_pieces(t).last().len() > 0,
{
    lemma_pieces_push(t.drop_last(), t.last());
    assert(t.drop_last().push(t.last()) =~= t);
}

/// Slugifying a slug changes nothing, as long as lowercasing leaves the slug
/// as it is (as it does a slug of ASCII letters, digits and dashes).
pub proof fn law_slug_is_idempotent(name: Seq<char>)
    requires
        lowercase(slug_of(name)) == slug_of(name),
    ensures
        slug_of(slug_of(name)) == slug_of(name),
{
    let g = slug_of(name);
    law_slug_chars(name);
    law_slug_is_tidy(name);
    let t = lowercase(g).map_values(|c: char| dash_or_keep(c));
    assert(t =~= g) by {
        assert forall|i: int| 0 <= i < g.len() implies t[i] == g[i] by {
            assert(g[i] == '-' || alphanumeric(g[i]));
        }
    }
    lemma_collapse_tidy(g);
}

/// Slugifying the slug of an ASCII name gives it back.
pub proof fn law_ascii_slug_is_idempotent(name: Seq<char>)
    requires
        all_ascii(name),
    ensures
        slug_of(slug_of(name)) == slug_of(name),
{
    let l = lowercase(name);
    let g = slug_of(name);
    law_slug_chars(name);
    assert forall|j: int| 0 <= j < l.len() implies is_ascii_char(#[trigger] l[j]) && !is_ascii_upper(l[j]) by {
        assert(l[j] == ascii_lower_char(name[j]));
        assert(is_ascii_char(name[j]));
    }
    assert forall|i: int| 0 <= i < g.len() implies is_ascii_char(#[trigger] g[i]) && !is_ascii_upper(g[i]) by {
        if g[i] != '-' {
            assert(l.contains(g[i]));
            let j = choose|j: int| 0 <= j < l.len() && l[j] == g[i];
            assert(is_ascii_char(l[j]) && !is_ascii_upper(l[j]));
        }
    }
    assert(all_ascii(g));
    assert(lowercase(g) =~= g) by {
        assert forall|i: int| 0 <= i < g.len() implies lowercase(g)[i] == g[i] by {
            assert(!is_ascii_upper(g[i]));
        }
    }
    law_slug_is_idempotent(name);
}

/// The slug of a text whose characters are already mapped.
fn collapse(m: &Vec<char>) -> (r: Vec<char>)
    ensures
        r@ == collapse_dashes(m@),
{
    let mut out: Vec<char> = Vec::new();
    let mut cur: Vec<char> = Vec::new();
    let mut i: usize = 0;
    proof {
        assert(m@.subrange(0, 0) =~= Seq::<char>::empty());
        assert(dash_pieces(Seq::<char>::empty()).drop_last() =~= Seq::<Seq<char>>::empty());
    }
    while i < m.len()
        invariant
            i <= m.len(),
            dash_pieces(m@.subrange(0, i as int)).len() >= 1,
            out@ == join_nonempty(dash_pieces(m@.subrange(0, i as int)).drop_last()),
            cur@ == dash_pieces(m@.subrange(0, i as int)).last(),
        decreases m.len() - i,
    {
        let c = m[i];
        let ghost t = m@.subrange(0, i as int);
        proof {
            assert(m@.subrange(0, i + 1) =~= t.push(c));
            lemma_pieces_push(t, c);
        }
        if c == '-' {
            proof {
                let ps = dash_pieces(t);
                assert(ps.drop_last().push(ps.last()) =~= ps);
                assert(join_nonempty(ps) == join_two(join_nonempty(ps.drop_last()), ps.last()));
            }
            if cur.len() > 0 {
                if out.len() > 0 {
                    out.push('-');
                }
                out.extend_from_slice(cur.as_slice());
                proof {
                    let ps = dash_pieces(t);
                    assert(out@ =~= join_two(join_nonempty(ps.drop_last()), ps.last()));
                }
            }
            cur = Vec::new();
            proof {
                assert(cur@ =~= Seq::<char>::empty());
            }
        } else {
            cur.push(c);
        }
        i = i + 1;
    }
    proof {
        assert(m@.subrange(0, m.len() as int) =~= m@);
        let ps = dash_pieces(m@);
        assert(ps.drop_last().push(ps.last()) =~= ps);
        assert(join_nonempty(ps) == join_two(join_nonempty(ps.drop_last()), ps.last()));
    }
    if cur.len() > 0 {
        if out.len() > 0 {
            out.push('-');
        }
        out.extend_from_slice(cur.as_slice());
    }
    proof {
        let ps = dash_pieces(m@);
        assert(out@ =~= join_two(join_nonempty(ps.drop_last()), ps.last()));
    }
    out
}

/// The characters of `name` lowercased, each non-alphanumeric one turned into a dash.
pub fn dash_mapped(name: &str) -> (m: Vec<char>)
    ensures
        m@ == lowercase(name@).map_values(|c: char| dash_or_keep(c)),
{
    let lower = to_lowercase(name);
    let lv = chars_of(lower.as_str());
    let mut m: Vec<char> = Vec::new();
    let mut i: usize = 0;
    while i < lv.len()
        invariant
            i <= lv.len(),
            lv@ == lowercase(name@),
            m@ == lv@.subrange(0, i as int).map_values(|c: char| dash_or_keep(c)),
        decreases lv.len() - i,
    {
        let c = lv[i];
        let mapped = if is_alphanumeric(c) { c } else { '-' };
        m.push(mapped);
        proof {
            assert(lv@.subrange(0, i + 1).map_values(|c: char| dash_or_keep(c)) =~= lv@.subrange(
                0,
                i as int,
            ).map_values(|c: char| dash_or_keep(c)).push(dash_or_keep(c)));
        }
        i = i + 1;
    }
    proof {
        assert(lv@.subrange(0, lv.len() as int) =~= lv@);
    }
    m
}

/// Dash runs collapsed by a single left-to-right pass that never starts with a
/// dash and drops one trailing dash at the end.
pub fn collapse_single_pass(m: &Vec<char>) -> (r: Vec<char>)
    ensures
        r@ == collapse_dashes(m@),
{
    let mut result: Vec<char> = Vec::new();
    let mut prev_hyphen = false;
    let mut i: usize = 0;
    proof {
        assert(m@.subrange(0, 0) =~= Seq::<char>::empty());
        assert(dash_pieces(Seq::<char>::empty()).drop_last() =~= Seq::<Seq<char>>::empty());
    }
    while i < m.len()
        invariant
            i <= m.len(),
            dash_pieces(m@.subrange(0, i as int)).len() >= 1,
            ({
                let ps = dash_pieces(m@.subrange(0, i as int));
                let s = join_nonempty(ps.drop_last());
                let c = ps.last();
                &&& prev_hyphen == (c.len() == 0 && s.len() > 0)
                &&& result@ == (if c.len() > 0 {
                    join_two(s, c)
                } else if s.len() > 0 {
                    s.push('-')
                } else {
                    Seq::<char>::empty()
                })
            }),
        decreases m.len() - i,
    {
        let c = m[i];
        let ghost t = m@.subrange(0, i as int);
        proof {
            assert(m@.subrange(0, i + 1) =~= t.push(c));
            lemma_pieces_push(t, c);
            let ps = dash_pieces(t);
            assert(ps.drop_last().push(ps.last()) =~= ps);
            assert(join_nonempty(ps) == join_two(join_nonempty(ps.drop_last()), ps.last()));
        }
        if c == '-' {
            if !prev_hyphen && result.len() > 0 {
                result.push(c);
                prev_hyphen = true;
            }
            proof {
                let ps = dash_pieces(t);
                let s = join_nonempty(ps.drop_last());
                let cur = ps.last();
                if cur.len() > 0 {
                    assert(result@ =~= join_two(s, cur).push('-'));
                }
            }
        } else {
            result.push(c);
            prev_hyphen = false;
            proof {
                let ps = dash_pieces(t);
                let s = join_nonempty(ps.drop_last());
                let cur = ps.last();
                if cur.len() > 0 {
                    lemma_join_two_push(s, cur, c);
                } else if s.len() > 0 {
                    assert(cur.push(c) =~= seq![c]);
                    assert(result@ =~= s + seq!['-'] + seq![c]);
                } else {
                    assert(cur.push(c) =~= seq![c]);
                    assert(result@ =~= seq![c]);
                }
            }
        }
        i = i + 1;
    }
    proof {
        assert(m@.subrange(0, m.len() as int) =~= m@);
        let ps = dash_pieces(m@);
        assert(ps.drop_last().push(ps.last()) =~= ps);
        assert(join_nonempty(ps) == join_two(join_nonempty(ps.drop_last()), ps.last()));
    }
    if prev_hyphen {
        result.pop();
        proof {
            let ps = dash_pieces(m@);
            let s = join_nonempty(ps.drop_last());
            assert(result@ =~= s);
        }
    }
    result
}

/// The slug of `name`, as the slugify of a project name computes it.
pub fn slug_chars(name: &str) -> (r: Vec<char>)
    ensures
        r@ == slug_of(name@),
{
    let m = dash_mapped(name);
    collapse(&m)
}

} // verus!
