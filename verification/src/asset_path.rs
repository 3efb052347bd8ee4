//! Asset paths: a path made of components and an optional label
//! (`dir/file#label`), and the resolution of one path relative to another.
use vstd::prelude::*;
use crate::text::{chars_of, push_char, push_str, slice_chars, string_of};

verus! {

/// An asset path: its components and its optional label.
#[derive(Debug, PartialEq, Eq)]
pub struct AssetPath {
    pub path: Vec<String>,
    pub label: Option<String>,
}

pub open spec fn strings_view(v: Seq<String>) -> Seq<Seq<char>> {
    v.map_values(|s: String| s@)
}

pub proof fn lemma_strings_view_push(v: Seq<String>, x: String)
    ensures
        strings_view(v.push(x)) == strings_view(v).push(x@),
{
    assert(strings_view(v.push(x)) =~= strings_view(v).push(x@));
}

pub open spec fn option_view(o: Option<String>) -> Option<Seq<char>> {
    match o {
        Some(s) => Some(s@),
        None => None,
    }
}

impl View for AssetPath {
    type V = (Seq<Seq<char>>, Option<Seq<char>>);

    open spec fn view(&self) -> (Seq<Seq<char>>, Option<Seq<char>>) {
        (strings_view(self.path@), option_view(self.label))
    }
}

/// The pieces of `s` between `/` separators, empty ones included.
pub open spec fn split_slash(s: Seq<char>) -> Seq<Seq<char>>
    decreases s.len(),
{
    if s.len() == 0 {
        seq![Seq::empty()]
    } else {
        let p = split_slash(s.drop_last());
        if s.last() == '/' {
            p.push(Seq::empty())
        } else {
            p.update(p.len() - 1, p.last().push(s.last()))
        }
    }
}

/// The pieces that name a directory or file: not empty and not `.`.
pub open spec fn normal_pieces(ps: Seq<Seq<char>>) -> Seq<Seq<char>>
    decreases ps.len(),
{
    if ps.len() == 0 {
        Seq::empty()
    } else {
        let r = normal_pieces(ps.drop_last());
        let x = ps.last();
        if x.len() == 0 || x == seq!['.'] {
            r
        } else {
            r.push(x)
        }
    }
}

/// The first component of a path whose first piece is `p0`: a leading `/`
/// is the root, a leading `.` is kept, an empty piece gives none.
pub open spec fn head_component(s: Seq<char>, p0: Seq<char>) -> Seq<Seq<char>> {
    if s.len() > 0 && s[0] == '/' {
        seq![seq!['/']]
    } else if p0.len() == 0 {
        Seq::empty()
    } else {
        seq![p0]
    }
}

/// The components of a path, as `Path::iter` yields them: a leading `/` is
/// the root, a leading `.` is kept, other `.` pieces and empty pieces are not.
pub open spec fn path_components(s: Seq<char>) -> Seq<Seq<char>> {
    let ps = split_slash(s);
    head_component(s, ps[0]) + normal_pieces(ps.drop_first())
}

/// The index of the first `#` in `s`, or `s.len()`.
pub open spec fn hash_index(s: Seq<char>) -> int
    decreases s.len(),
{
    if s.len() == 0 {
        0
    } else if s[0] == '#' {
        0
    } else {
        1 + hash_index(s.drop_first())
    }
}

/// What precedes the first `#`.
pub open spec fn before_hash(s: Seq<char>) -> Seq<char> {
    s.take(hash_index(s))
}

/// What follows the first `#`, if there is one.
pub open spec fn after_hash(s: Seq<char>) -> Option<Seq<char>> {
    if hash_index(s) < s.len() {
        Some(s.skip(hash_index(s) + 1))
    } else {
        None
    }
}

/// The asset path that the text `s` names.
pub open spec fn parse_asset_path(s: Seq<char>) -> (Seq<Seq<char>>, Option<Seq<char>>) {
    (path_components(before_hash(s)), after_hash(s))
}

/// The path without its last component; none for an empty path or the root.
pub open spec fn pop_component(p: Seq<Seq<char>>) -> Option<Seq<Seq<char>>> {
    if p.len() > 0 && p.last() != seq!['/'] {
        Some(p.drop_last())
    } else {
        None
    }
}

/// Appends a component; the root replaces the whole path.
pub open spec fn push_component(p: Seq<Seq<char>>, c: Seq<char>) -> Seq<Seq<char>> {
    if c == seq!['/'] {
        seq![c]
    } else {
        p.push(c)
    }
}

/// Applies relative components to the directory `dir`. A first component that
/// is not `.` or `..` starts afresh; `..` with nothing to remove fails.
pub open spec fn resolve_components(
    dir: Seq<Seq<char>>,
    rel: Seq<Seq<char>>,
    first: bool,
) -> Option<Seq<Seq<char>>>
    decreases rel.len(),
{
    if rel.len() == 0 {
        Some(dir)
    } else {
        let c = rel[0];
        let next = if c == seq!['.'] {
            Some(dir)
        } else if c == seq!['.', '.'] {
            pop_component(dir)
        } else {
            Some(
                push_component(
                    if first {
                        Seq::empty()
                    } else {
                        dir
                    },
                    c,
                ),
            )
        };
        match next {
            Some(d) => resolve_components(d, rel.drop_first(), false),
            None => None,
        }
    }
}

/// The asset path that `path` names relative to `base`: a bare `#label`
/// names a label of `base`; otherwise the path is resolved against the
/// directory of `base`. None where there are not enough path components.
pub open spec fn relative_path(base: (Seq<Seq<char>>, Option<Seq<char>>), path: Seq<char>) -> Option<
    (Seq<Seq<char>>, Option<Seq<char>>),
> {
    if path.len() > 0 && path[0] == '#' {
        Some((base.0, Some(path.drop_first())))
    } else {
        match pop_component(base.0) {
            None => None,
            Some(dir) => match resolve_components(dir, path_components(before_hash(path)), true) {
                Some(p) => Some((p, after_hash(path))),
                None => None,
            },
        }
    }
}

fn hash_index_of(v: &Vec<char>) -> (k: usize)
    ensures
        k <= v@.len(),
        k == hash_index(v@),
{
    let mut k: usize = 0;
    assert(v@.skip(0) == v@);
    while k < v.len() && v[k] != '#'
        invariant
            k <= v@.len(),
            hash_index(v@) == k + hash_index(v@.skip(k as int)),
        decreases v@.len() - k,
    {
        assert(v@.skip(k as int).drop_first() == v@.skip(k + 1));
        k = k + 1;
    }
    proof {
        if k < v.len() {
            assert(v@.skip(k as int)[0] == v@[k as int]);
        }
    }
    k
}

proof fn lemma_split_slash_len(s: Seq<char>)
    ensures
        split_slash(s).len() >= 1,
    decreases s.len(),
{
    if s.len() > 0 {
        lemma_split_slash_len(s.drop_last());
    }
}

fn is_dot(v: &Vec<char>, from: usize, to: usize) -> (b: bool)
    requires
        from <= to <= v@.len(),
    ensures
        b == (v@.subrange(from as int, to as int) == seq!['.']),
{
    let b = to - from == 1 && v[from] == '.';
    proof {
        if to - from == 1 {
            assert(v@.subrange(from as int, to as int)[0] == v@[from as int]);
            if v[from as int] == '.' {
                assert(v@.subrange(from as int, to as int) =~= seq!['.']);
            }
        } else {
            assert(v@.subrange(from as int, to as int).len() != 1);
        }
    }
    b
}

/// The components of the path text `v[0..end]`.
fn components_of(v: &Vec<char>, end: usize) -> (r: Vec<String>)
    requires
        end <= v@.len(),
    ensures
        strings_view(r@) == path_components(v@.take(end as int)),
{
    let ghost s = v@.take(end as int);
    let rooted = end > 0 && v[0] == '/';
    let mut out: Vec<String> = Vec::new();
    assert(strings_view(out@) =~= Seq::<Seq<char>>::empty());
    let ghost mut done: Seq<Seq<char>> = Seq::empty();
    let mut st: usize = 0;
    let mut i: usize = 0;
    proof {
        assert(s.take(0) =~= Seq::<char>::empty());
        assert(v@.subrange(0, 0) =~= Seq::<char>::empty());
        assert(split_slash(s.take(0)) =~= done.push(v@.subrange(0, 0)));
    }
    while i < end
        invariant
            st <= i <= end <= v@.len(),
            s == v@.take(end as int),
            rooted == (s.len() > 0 && s[0] == '/'),
            split_slash(s.take(i as int)) == done.push(v@.subrange(st as int, i as int)),
            done.len() == 0 ==> st == 0 && out@.len() == 0 && forall|j: int|
                0 <= j < i ==> v@[j] != '/',
            done.len() > 0 ==> st > 0,
            done.len() > 0 ==> strings_view(out@) == head_component(s, done[0]) + normal_pieces(
                done.drop_first(),
            ),
        decreases end - i,
    {
        if v[i] == '/' {
            let ghost piece = v@.subrange(st as int, i as int);
            let piece_dot = is_dot(v, st, i);
            if st == 0 {
                if rooted {
                    {
    let ghost ov = out@;
    let x = string_of(v, 0, 1);
    out.push(x);
    proof { lemma_strings_view_push(ov, x); }
}
                } else if i > 0 {
                    {
    let ghost ov = out@;
    let x = string_of(v, 0, i);
    out.push(x);
    proof { lemma_strings_view_push(ov, x); }
}
                }
            } else if st < i && !piece_dot {
                {
    let ghost ov = out@;
    let x = string_of(v, st, i);
    out.push(x);
    proof { lemma_strings_view_push(ov, x); }
}
            }
            proof {
                assert(s.take(i + 1).drop_last() == s.take(i as int));
                assert(s.take(i + 1).last() == '/');
                let nd = done.push(piece);
                assert(nd.drop_last() == done);
                if done.len() == 0 {
                    assert(nd[0] == piece);
                    assert(nd.drop_first() =~= Seq::<Seq<char>>::empty());
                    if rooted {
                        assert(v@.subrange(0, 1) =~= seq!['/']);
                        assert(i == 0);
                    }
                    assert(strings_view(out@) =~= head_component(s, nd[0]) + normal_pieces(
                        nd.drop_first(),
                    ));
                } else {
                    assert(nd[0] == done[0]);
                    assert(nd.drop_first() =~= done.drop_first().push(piece));
                    assert(nd.drop_first().drop_last() =~= done.drop_first());
                    assert(nd.drop_first().last() == piece);
                    let hd = head_component(s, done[0]);
                    let np = normal_pieces(done.drop_first());
                    if piece.len() == 0 || piece == seq!['.'] {
                        assert(normal_pieces(nd.drop_first()) == np);
                    } else {
                        assert(normal_pieces(nd.drop_first()) == np.push(piece));
                        assert(hd + np.push(piece) =~= (hd + np).push(piece));
                    }
                    assert(strings_view(out@) =~= head_component(s, nd[0]) + normal_pieces(
                        nd.drop_first(),
                    ));
                }
                assert(v@.subrange((i + 1) as int, (i + 1) as int) =~= Seq::<char>::empty());
                done = nd;
            }
            st = i + 1;
        } else {
            proof {
                assert(s.take(i + 1).drop_last() == s.take(i as int));
                assert(s.take(i + 1).last() == v@[i as int]);
                assert(v@.subrange(st as int, (i + 1) as int) == v@.subrange(st as int, i as int).push(
                    v@[i as int],
                ));
                assert(done.push(v@.subrange(st as int, i as int)).update(
                    done.len() as int,
                    v@.subrange(st as int, (i + 1) as int),
                ) =~= done.push(v@.subrange(st as int, (i + 1) as int)));
            }
        }
        i = i + 1;
    }
    let ghost piece = v@.subrange(st as int, end as int);
    let piece_dot = is_dot(v, st, end);
    if st == 0 {
        if rooted {
            {
    let ghost ov = out@;
    let x = string_of(v, 0, 1);
    out.push(x);
    proof { lemma_strings_view_push(ov, x); }
}
        } else if end > 0 {
            {
    let ghost ov = out@;
    let x = string_of(v, 0, end);
    out.push(x);
    proof { lemma_strings_view_push(ov, x); }
}
        }
    } else if st < end && !piece_dot {
        {
    let ghost ov = out@;
    let x = string_of(v, st, end);
    out.push(x);
    proof { lemma_strings_view_push(ov, x); }
}
    }
    proof {
        assert(s.take(end as int) == s);
        let nd = done.push(piece);
        if done.len() == 0 {
            assert(nd[0] == piece);
            assert(nd.drop_first() =~= Seq::<Seq<char>>::empty());
            if rooted {
                assert(v@.subrange(0, 1) =~= seq!['/']);
            }
            assert(strings_view(out@) =~= head_component(s, nd[0]) + normal_pieces(
                nd.drop_first(),
            ));
        } else {
            assert(nd[0] == done[0]);
            assert(nd.drop_first() =~= done.drop_first().push(piece));
            assert(nd.drop_first().drop_last() =~= done.drop_first());
            assert(nd.drop_first().last() == piece);
            let hd = head_component(s, done[0]);
            let np = normal_pieces(done.drop_first());
            if piece.len() == 0 || piece == seq!['.'] {
                assert(normal_pieces(nd.drop_first()) == np);
            } else {
                assert(normal_pieces(nd.drop_first()) == np.push(piece));
                assert(hd + np.push(piece) =~= (hd + np).push(piece));
            }
            assert(strings_view(out@) =~= head_component(s, nd[0]) + normal_pieces(
                nd.drop_first(),
            ));
        }
    }
    out
}

impl AssetPath {
    /// Reads an asset path: the text before the first `#` is the path, the
    /// text after it the label.
    pub fn parse(s: &str) -> (r: AssetPath)
        ensures
            r@ == parse_asset_path(s@),
    {
        let v = chars_of(s);
        let k = hash_index_of(&v);
        let path = components_of(&v, k);
        let label = if k < v.len() {
            Some(string_of(&v, k + 1, v.len()))
        } else {
            None
        };
        proof {
            assert(v@.take(k as int) == before_hash(s@));
        }
        AssetPath { path, label }
    }
}

fn clone_strings(v: &Vec<String>) -> (r: Vec<String>)
    ensures
        strings_view(r@) == strings_view(v@),
{
    let mut r: Vec<String> = Vec::new();
    let mut i: usize = 0;
    while i < v.len()
        invariant
            i <= v@.len(),
            strings_view(r@) == strings_view(v@.take(i as int)),
        decreases v@.len() - i,
    {
        let ghost rv = r@;
        let x = v[i].clone();
        r.push(x);
        proof {
            lemma_strings_view_push(rv, x);
            assert(v@.take(i + 1) == v@.take(i as int).push(v@[i as int]));
            lemma_strings_view_push(v@.take(i as int), v@[i as int]);
        }
        i = i + 1;
    }
    assert(v@.take(v@.len() as int) == v@);
    r
}

/// Whether the characters of `s` are exactly `t`.
fn string_is(s: &String, t: &[char]) -> (b: bool)
    ensures
        b == (s@ == t@),
{
    let v = chars_of(s.as_str());
    if v.len() != t.len() {
        return false;
    }
    let mut i: usize = 0;
    while i < v.len()
        invariant
            i <= v@.len() == t@.len(),
            v@ == s@,
            forall|j: int| 0 <= j < i ==> v@[j] == t@[j],
        decreases v@.len() - i,
    {
        if v[i] != t[i] {
            return false;
        }
        i = i + 1;
    }
    assert(v@ =~= t@);
    true
}

/// Resolves `path` relative to `base`: a bare `#label` names a label of
/// `base`; otherwise `.` and `..` components step from the directory of
/// `base`, and a path that starts with neither replaces it.
pub fn relative_asset_path(base: &AssetPath, path: &str) -> (r: AssetPath)
    requires
        relative_path(base@, path@) is Some,
    ensures
        r@ == relative_path(base@, path@)->0,
{
    let v = chars_of(path);
    if v.len() > 0 && v[0] == '#' {
        let p = clone_strings(&base.path);
        let label = string_of(&v, 1, v.len());
        proof {
            assert(v@.subrange(1, v@.len() as int) == v@.drop_first());
        }
        return AssetPath { path: p, label: Some(label) };
    }
    let k = hash_index_of(&v);
    let rel = components_of(&v, k);
    let label = if k < v.len() {
        Some(string_of(&v, k + 1, v.len()))
    } else {
        None
    };
    let mut dir = clone_strings(&base.path);
    let ghost bv = strings_view(base.path@);
    proof {
        assert(v@.take(k as int) == before_hash(path@));
        assert(bv.len() > 0 && bv.last() != seq!['/']);
    }
    let ghost dv = strings_view(dir@);
    dir.pop();
    proof {
        assert(strings_view(dir@) =~= bv.drop_last());
    }
    let ghost relv = strings_view(rel@);
    let ghost target = resolve_components(bv.drop_last(), relv, true);
    let mut i: usize = 0;
    let mut first = true;
    assert(relv.skip(0) =~= relv);
    while i < rel.len()
        invariant
            i <= rel@.len(),
            relv == strings_view(rel@),
            first == (i == 0),
            target is Some,
            resolve_components(strings_view(dir@), relv.skip(i as int), first) == target,
        decreases rel@.len() - i,
    {
        let ghost d0 = strings_view(dir@);
        let c = &rel[i];
        proof {
            assert(relv.skip(i as int)[0] == c@);
            assert(relv.skip(i as int).drop_first() =~= relv.skip(i + 1));
        }
        let dot: [char; 1] = ['.'];
        let dotdot: [char; 2] = ['.', '.'];
        let slash: [char; 1] = ['/'];
        assert(dot@ =~= seq!['.']);
        assert(dotdot@ =~= seq!['.', '.']);
        assert(slash@ =~= seq!['/']);
        if string_is(c, &dot) {
        } else if string_is(c, &dotdot) {
            proof {
                assert(d0.len() > 0 && d0.last() != seq!['/']);
            }
            dir.pop();
            proof {
                assert(strings_view(dir@) =~= d0.drop_last());
            }
        } else {
            if first {
                dir.clear();
                proof {
                    assert(strings_view(dir@) =~= Seq::<Seq<char>>::empty());
                }
            }
            let root = string_is(c, &slash);
            if root {
                dir.clear();
            }
            let ghost d1 = dir@;
            let x = c.clone();
            dir.push(x);
            proof {
                lemma_strings_view_push(d1, x);
                if root {
                    assert(strings_view(d1) =~= Seq::<Seq<char>>::empty());
                    assert(strings_view(dir@) =~= seq![c@]);
                }
            }
        }
        i = i + 1;
        first = false;
    }
    proof {
        assert(relv.skip(rel@.len() as int) =~= Seq::<Seq<char>>::empty());
    }
    AssetPath { path: dir, label }
}

/// Where the first component of a path is neither `.` nor `..`, the path
/// does not depend on the directory it is resolved in.
pub proof fn lemma_absolute_path_ignores_base(
    b1: (Seq<Seq<char>>, Option<Seq<char>>),
    b2: (Seq<Seq<char>>, Option<Seq<char>>),
    path: Seq<char>,
)
    requires
        !(path.len() > 0 && path[0] == '#'),
        pop_component(b1.0) is Some,
        pop_component(b2.0) is Some,
        path_components(before_hash(path)).len() > 0,
        path_components(before_hash(path))[0] != seq!['.'],
        path_components(before_hash(path))[0] != seq!['.', '.'],
    ensures
        relative_path(b1, path) == relative_path(b2, path),
{
    let rel = path_components(before_hash(path));
    let d1 = pop_component(b1.0)->0;
    let d2 = pop_component(b2.0)->0;
    assert(resolve_components(d1, rel, true) == resolve_components(
        push_component(Seq::empty(), rel[0]),
        rel.drop_first(),
        false,
    ));
    assert(resolve_components(d2, rel, true) == resolve_components(
        push_component(Seq::empty(), rel[0]),
        rel.drop_first(),
        false,
    ));
}

/// No piece between `/` separators holds a `/`, and there is at least one.
proof fn lemma_split_slash_pieces(s: Seq<char>)
    ensures
        split_slash(s).len() >= 1,
        forall|i: int, j: int|
            0 <= i < split_slash(s).len() && 0 <= j < split_slash(s)[i].len() ==> #[trigger] split_slash(s)[i][j] != '/',
    decreases s.len(),
{
    if s.len() > 0 {
        lemma_split_slash_pieces(s.drop_last());
        let p = split_slash(s.drop_last());
        if s.last() != '/' {
            let q = p.update(p.len() - 1, p.last().push(s.last()));
            assert forall|i: int, j: int| 0 <= i < q.len() && 0 <= j < q[i].len() implies #[trigger] q[i][j] != '/' by {
                if i == p.len() - 1 {
                    if j < p.last().len() {
                        assert(q[i][j] == p[i][j]);
                    }
                } else {
                    assert(q[i] == p[i]);
                }
            }
        } else {
            let q = p.push(Seq::<char>::empty());
            assert forall|i: int, j: int| 0 <= i < q.len() && 0 <= j < q[i].len() implies #[trigger] q[i][j] != '/' by {
                if i < p.len() {
                    assert(q[i] == p[i]);
                }
            }
        }
    }
}

/// The pieces kept as components hold no `/` where no piece does.
proof fn lemma_normal_pieces_no_slash(ps: Seq<Seq<char>>)
    requires
        forall|i: int, j: int| 0 <= i < ps.len() && 0 <= j < ps[i].len() ==> #[trigger] ps[i][j] != '/',
    ensures
        forall|i: int| 0 <= i < normal_pieces(ps).len() ==> #[trigger] normal_pieces(ps)[i] != seq!['/'],
    decreases ps.len(),
{
    if ps.len() > 0 {
        let r = normal_pieces(ps.drop_last());
        assert forall|i: int, j: int| 0 <= i < ps.drop_last().len() && 0 <= j < ps.drop_last()[i].len() implies #[trigger] ps.drop_last()[i][j] != '/' by {
            assert(ps.drop_last()[i] == ps[i]);
        }
        lemma_normal_pieces_no_slash(ps.drop_last());
        let x = ps.last();
        if !(x.len() == 0 || x == seq!['.']) {
            assert(x != seq!['/']) by {
                if x == seq!['/'] {
                    assert(ps[ps.len() - 1][0] == '/');
                }
            }
            assert forall|i: int| 0 <= i < r.push(x).len() implies #[trigger] r.push(x)[i] != seq!['/'] by {
                if i < r.len() {
                    assert(r.push(x)[i] == r[i]);
                }
            }
        }
    }
}

/// Resolving components that are neither `.`, `..` nor the root appends
/// them to the directory.
proof fn lemma_resolve_plain(dir: Seq<Seq<char>>, rel: Seq<Seq<char>>)
    requires
        forall|i: int| 0 <= i < rel.len() ==> #[trigger] rel[i] != seq!['.'] && rel[i] != seq!['.', '.'] && rel[i] != seq!['/'],
    ensures
        resolve_components(dir, rel, false) == Some(dir + rel),
    decreases rel.len(),
{
    if rel.len() == 0 {
        assert(dir + rel =~= dir);
    } else {
        assert forall|i: int| 0 <= i < rel.drop_first().len() implies #[trigger] rel.drop_first()[i] != seq!['.'] && rel.drop_first()[i] != seq!['.', '.'] && rel.drop_first()[i] != seq!['/'] by {
            assert(rel.drop_first()[i] == rel[i + 1]);
        }
        assert(rel[0] != seq!['.'] && rel[0] != seq!['.', '.'] && rel[0] != seq!['/']);
        lemma_resolve_plain(dir.push(rel[0]), rel.drop_first());
        assert(dir.push(rel[0]) + rel.drop_first() =~= dir + rel);
    }
}

/// A path whose components are neither `.` nor `..` names itself, whatever
/// the base it is resolved against (a base with a directory, for a path that
/// is not a bare label).
pub proof fn lemma_plain_path_resolves_to_itself(
    base: (Seq<Seq<char>>, Option<Seq<char>>),
    path: Seq<char>,
)
    requires
        !(path.len() > 0 && path[0] == '#'),
        pop_component(base.0) is Some,
        path_components(before_hash(path)).len() > 0,
        forall|i: int| 0 <= i < path_components(before_hash(path)).len() ==>
            #[trigger] path_components(before_hash(path))[i] != seq!['.']
            && path_components(before_hash(path))[i] != seq!['.', '.'],
    ensures
        relative_path(base, path) == Some(parse_asset_path(path)),
{
    let t = before_hash(path);
    let rel = path_components(t);
    let ps = split_slash(t);
    lemma_split_slash_pieces(t);
    let tail = ps.drop_first();
    assert forall|i: int, j: int| 0 <= i < tail.len() && 0 <= j < tail[i].len() implies #[trigger] tail[i][j] != '/' by {
        assert(tail[i] == ps[i + 1]);
    }
    lemma_normal_pieces_no_slash(tail);
    let hd = head_component(t, ps[0]);
    let np = normal_pieces(tail);
    assert(rel == hd + np);
    assert(hd.len() >= 1 ==> rel[0] == hd[0]);
    let d = pop_component(base.0)->0;
    let rest = rel.drop_first();
    assert forall|i: int| 0 <= i < rest.len() implies #[trigger] rest[i] != seq!['.'] && rest[i] != seq!['.', '.'] && rest[i] != seq!['/'] by {
        assert(rest[i] == rel[i + 1]);
        if hd.len() == 1 {
            assert(rel[i + 1] == np[i]);
        } else {
            assert(rel[i + 1] == np[i + 1]);
        }
    }
    lemma_resolve_plain(push_component(Seq::empty(), rel[0]), rest);
    assert(push_component(Seq::<Seq<char>>::empty(), rel[0]) =~= seq![rel[0]]);
    assert(seq![rel[0]] + rest =~= rel);
}

/// `k` components `..`.
pub open spec fn dotdots(k: nat) -> Seq<Seq<char>> {
    Seq::new(k, |i: int| seq!['.', '.'])
}

/// Each `..` removes one component of the directory, wherever it stands in a
/// run of them, and the plain components after them are appended.
proof fn lemma_climb(dir: Seq<Seq<char>>, k: nat, rest: Seq<Seq<char>>, first: bool)
    requires
        k >= 1 || !first,
        k <= dir.len(),
        forall|i: int| dir.len() - k <= i < dir.len() ==> #[trigger] dir[i] != seq!['/'],
        forall|i: int| 0 <= i < rest.len() ==> #[trigger] rest[i] != seq!['.'] && rest[i] != seq!['.', '.'] && rest[i] != seq!['/'],
    ensures
        resolve_components(dir, dotdots(k) + rest, first) == Some(dir.take(dir.len() - k) + rest),
    decreases k,
{
    if k == 0 {
        assert(dotdots(0) + rest =~= rest);
        assert(dir.take(dir.len() as int) =~= dir);
        lemma_resolve_plain(dir, rest);
    } else {
        let rel = dotdots(k) + rest;
        assert(rel[0] == seq!['.', '.']);
        assert(seq!['.', '.'] != seq!['.']) by {
            assert(seq!['.', '.'].len() != seq!['.'].len());
        }
        assert(dir.last() == dir[dir.len() - 1]);
        assert(pop_component(dir) == Some(dir.drop_last()));
        assert(rel.drop_first() =~= dotdots((k - 1) as nat) + rest);
        let d = dir.drop_last();
        assert forall|i: int| d.len() - (k - 1) <= i < d.len() implies #[trigger] d[i] != seq!['/'] by {
            assert(d[i] == dir[i]);
        }
        lemma_climb(d, (k - 1) as nat, rest, false);
        assert(d.take(d.len() - (k - 1)) =~= dir.take(dir.len() - k));
    }
}

/// Resolving a path that climbs `k` directories with `..` and then names
/// plain components: each `..` removes one component of the base's
/// directory, so the result is what is left of that directory followed by
/// the plain components. For instance `../../image.png` against
/// `ui/styles/main.json` gives `image.png`.
pub proof fn lemma_dotdots_climb(
    base: (Seq<Seq<char>>, Option<Seq<char>>),
    path: Seq<char>,
    k: nat,
    rest: Seq<Seq<char>>,
)
    requires
        !(path.len() > 0 && path[0] == '#'),
        pop_component(base.0) is Some,
        path_components(before_hash(path)) == dotdots(k) + rest,
        1 <= k,
        k + 1 <= base.0.len(),
        forall|i: int| base.0.len() - 1 - k <= i < base.0.len() ==> #[trigger] base.0[i] != seq!['/'],
        forall|i: int| 0 <= i < rest.len() ==> #[trigger] rest[i] != seq!['.'] && rest[i] != seq!['.', '.'] && rest[i] != seq!['/'],
    ensures
        relative_path(base, path) == Some((base.0.take(base.0.len() - 1 - k) + rest, after_hash(path))),
{
    let dir = base.0.drop_last();
    assert forall|i: int| dir.len() - k <= i < dir.len() implies #[trigger] dir[i] != seq!['/'] by {
        assert(dir[i] == base.0[i]);
    }
    lemma_climb(dir, k, rest, true);
    assert(dir.take(dir.len() - k) =~= base.0.take(base.0.len() - 1 - k));
}

/// A path that starts with `.` stays in the base's directory: the plain
/// components after it are appended to that directory. A bare `#label`
/// names that label of the base itself.
pub proof fn lemma_dot_and_label(
    base: (Seq<Seq<char>>, Option<Seq<char>>),
    path: Seq<char>,
    rest: Seq<Seq<char>>,
)
    requires
        forall|i: int| 0 <= i < rest.len() ==> #[trigger] rest[i] != seq!['.'] && rest[i] != seq!['.', '.'] && rest[i] != seq!['/'],
    ensures
        path.len() > 0 && path[0] == '#' ==> relative_path(base, path) == Some((base.0, Some(path.drop_first()))),
        !(path.len() > 0 && path[0] == '#') && pop_component(base.0) is Some
            && path_components(before_hash(path)) == seq![seq!['.']] + rest ==> relative_path(base, path) == Some(
            (base.0.drop_last() + rest, after_hash(path)),
        ),
{
    if !(path.len() > 0 && path[0] == '#') && pop_component(base.0) is Some
        && path_components(before_hash(path)) == seq![seq!['.']] + rest {
        let rel = seq![seq!['.']] + rest;
        assert(rel[0] == seq!['.']);
        assert(rel.drop_first() =~= rest);
        lemma_resolve_plain(base.0.drop_last(), rest);
    }
}

/// The components of a path joined by `/`.
pub open spec fn join_components(s: Seq<Seq<char>>) -> Seq<char>
    decreases s.len(),
{
    if s.len() == 0 {
        Seq::empty()
    } else if s.len() == 1 {
        s[0]
    } else {
        join_components(s.drop_last()) + seq!['/'] + s.last()
    }
}

/// The text of an asset path: its components joined by `/`, then `#` and
/// the label where there is one.
pub open spec fn path_text(p: (Seq<Seq<char>>, Option<Seq<char>>)) -> Seq<char> {
    match p.1 {
        Some(l) => join_components(p.0) + seq!['#'] + l,
        None => join_components(p.0),
    }
}

impl AssetPath {
    /// The text of this path.
    pub fn to_text(&self) -> (r: String)
        ensures
            r@ == path_text(self@),
    {
        let mut out = String::new();
        let mut i: usize = 0;
        let ghost comps = strings_view(self.path@);
        while i < self.path.len()
            invariant
                i <= self.path@.len(),
                comps == strings_view(self.path@),
                out@ == join_components(comps.take(i as int)),
            decreases self.path@.len() - i,
        {
            if i > 0 {
                push_char(&mut out, '/');
            }
            push_str(&mut out, self.path[i].as_str());
            proof {
                assert(comps.take(i + 1).drop_last() == comps.take(i as int));
                assert(comps.take(i + 1).last() == self.path@[i as int]@);
                if i == 0 {
                    assert(comps.take(1) =~= seq![self.path@[0]@]);
                    assert(out@ =~= self.path@[0]@);
                }
            }
            i = i + 1;
        }
        assert(comps.take(comps.len() as int) == comps);
        match &self.label {
            Some(l) => {
                push_char(&mut out, '#');
                push_str(&mut out, l.as_str());
            },
            None => {},
        }
        out
    }
}

/// A reference to an asset by path, with the path resolved against the asset
/// that holds the reference, and the text of the resolved path.
#[derive(Debug, PartialEq, Eq)]
pub struct AssetRef {
    path: String,
    resolved: AssetPath,
    resolved_text: String,
}

impl View for AssetRef {
    type V = (Seq<char>, (Seq<Seq<char>>, Option<Seq<char>>));

    closed spec fn view(&self) -> (Seq<char>, (Seq<Seq<char>>, Option<Seq<char>>)) {
        (self.path@, self.resolved@)
    }
}

impl AssetRef {
    /// The text held for the resolved path is that path's text.
    #[verifier::type_invariant]
    closed spec fn text_matches(self) -> bool {
        self.resolved_text@ == path_text(self.resolved@)
    }

    /// The text of the resolved path.
    pub closed spec fn resolved_written(self) -> String {
        self.resolved_text
    }

    /// The text of the resolved path.
    pub fn resolved_text(&self) -> (r: &String)
        ensures
            *r == self.resolved_written(),
            r@ == path_text(self@.1),
    {
        proof {
            use_type_invariant(self);
        }
        &self.resolved_text
    }

    /// A reference to the asset that `path` names, not yet resolved.
    pub fn new(path: &str) -> (r: AssetRef)
        ensures
            r@.0 == path@,
            r@.1 == parse_asset_path(path@),
    {
        let v = chars_of(path);
        let p = string_of(&v, 0, v.len());
        assert(v@.subrange(0, v@.len() as int) == v@);
        let resolved = AssetPath::parse(path);
        let resolved_text = resolved.to_text();
        AssetRef { path: p, resolved, resolved_text }
    }

    /// Resolves the path against the path of the asset that holds it.
    pub fn resolve_asset_path(&mut self, base: &AssetPath)
        requires
            relative_path(base@, old(self)@.0) is Some,
        ensures
            final(self)@.0 == old(self)@.0,
            final(self)@.1 == relative_path(base@, old(self)@.0)->0,
    {
        let resolved = relative_asset_path(base, self.path.as_str());
        let resolved_text = resolved.to_text();
        let path = self.path.clone();
        *self = AssetRef { path, resolved, resolved_text };
    }

    /// The path as it was written.
    pub closed spec fn written(self) -> String {
        self.path
    }

    /// The path as it was written.
    pub fn path(&self) -> (r: &String)
        ensures
            *r == self.written(),
            r@ == self@.0,
    {
        &self.path
    }

    /// The resolved path.
    pub fn resolved(&self) -> (r: &AssetPath)
        ensures
            r@ == self@.1,
    {
        &self.resolved
    }
}

impl Clone for AssetPath {
    fn clone(&self) -> (r: AssetPath)
        ensures
            r@ == self@,
    {
        let mut path: Vec<String> = Vec::new();
        let mut i: usize = 0;
        while i < self.path.len()
            invariant
                i <= self.path@.len(),
                strings_view(path@) == strings_view(self.path@.take(i as int)),
            decreases self.path@.len() - i,
        {
            let c = self.path[i].clone();
            proof {
                lemma_strings_view_push(path@, c);
                assert(self.path@.take(i + 1) == self.path@.take(i as int).push(self.path@[i as int]));
                lemma_strings_view_push(self.path@.take(i as int), self.path@[i as int]);
            }
            path.push(c);
            i = i + 1;
        }
        assert(self.path@.take(self.path@.len() as int) == self.path@);
        let label = match &self.label {
            Some(l) => Some(l.clone()),
            None => None,
        };
        AssetPath { path, label }
    }
}

impl Clone for AssetRef {
    fn clone(&self) -> (r: AssetRef)
        ensures
            r@ == self@,
    {
        proof {
            use_type_invariant(self);
        }
        AssetRef {
            path: self.path.clone(),
            resolved: self.resolved.clone(),
            resolved_text: self.resolved_text.clone(),
        }
    }
}

} // verus!
