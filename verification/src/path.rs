//! Normalization of drive-IRP paths into share-root-relative components.
//!
//! Paths arrive backslash-separated and rooted at the share (`\dir\f.txt`);
//! forward slashes are accepted too. Empty components and `.` are dropped and
//! any `..` component is refused, so no normalized path can escape the share.

use vstd::prelude::*;

use crate::entry::FsError;

verus! {

/// A path separator: backslash or forward slash.
pub open spec fn is_sep(c: char) -> bool {
    c == '\\' || c == '/'
}

/// The pieces `s` splits into at every separator, in order, as `str::split`
/// yields them: `n` separators give `n + 1` pieces, empty ones included.
pub open spec fn split_pieces(s: Seq<char>) -> Seq<Seq<char>>
    decreases s.len(),
{
    if s.len() == 0 {
        seq![Seq::<char>::empty()]
    } else {
        let prev = split_pieces(s.drop_last());
        if is_sep(s.last()) {
            prev.push(Seq::<char>::empty())
        } else {
            prev.update(prev.len() - 1, prev.last().push(s.last()))
        }
    }
}

/// The parent-directory component `..`.
pub open spec fn parent_ref() -> Seq<char> {
    seq!['.', '.']
}

/// The current-directory component `.`.
pub open spec fn current_ref() -> Seq<char> {
    seq!['.']
}

/// A piece that normalization drops: the empty piece or `.`.
pub open spec fn is_skipped(piece: Seq<char>) -> bool {
    piece.len() == 0 || piece == current_ref()
}

/// Whether any piece of `s` is `..`.
pub open spec fn escapes_root(s: Seq<char>) -> bool {
    split_pieces(s).contains(parent_ref())
}

/// Keeps, in order, the pieces that are neither empty nor `.`.
pub open spec fn kept(pieces: Seq<Seq<char>>) -> Seq<Seq<char>>
    decreases pieces.len(),
{
    if pieces.len() == 0 {
        Seq::empty()
    } else if is_skipped(pieces.last()) {
        kept(pieces.drop_last())
    } else {
        kept(pieces.drop_last()).push(pieces.last())
    }
}

/// The normalized components of a path that does not escape the root.
pub open spec fn components(s: Seq<char>) -> Seq<Seq<char>> {
    kept(split_pieces(s))
}

/// A path that normalization accepts.
pub open spec fn path_ok(s: Seq<char>) -> bool {
    !escapes_root(s)
}

/// The views of a vector of strings.
pub open spec fn views(v: Seq<String>) -> Seq<Seq<char>> {
    v.map_values(|c: String| c@)
}

pub proof fn lemma_split_nonempty(s: Seq<char>)
    ensures
        split_pieces(s).len() >= 1,
    decreases s.len(),
{
    if s.len() > 0 {
        lemma_split_nonempty(s.drop_last());
    }
}

/// Extending a prefix by one character: a separator closes the current piece,
/// anything else extends it.
proof fn lemma_split_step(s: Seq<char>, i: int)
    requires
        0 <= i < s.len(),
    ensures
        split_pieces(s.take(i + 1)) == (if is_sep(s[i]) {
            split_pieces(s.take(i)).push(Seq::<char>::empty())
        } else {
            let prev = split_pieces(s.take(i));
            prev.update(prev.len() - 1, prev.last().push(s[i]))
        }),
{
    assert(s.take(i + 1).drop_last() =~= s.take(i));
}

} // verus!

verus! {

/// Every piece of `s.take(i)` but the last (which may still grow) is a piece
/// of `s` at the same position.
proof fn lemma_split_prefix(s: Seq<char>, i: int)
    requires
        0 <= i <= s.len(),
    ensures
        split_pieces(s.take(i)).len() <= split_pieces(s).len(),
        forall|k: int|
            0 <= k < split_pieces(s.take(i)).len() - 1 ==> #[trigger] split_pieces(s)[k]
                == split_pieces(s.take(i))[k],
    decreases s.len(),
{
    lemma_split_nonempty(s);
    if i == s.len() {
        assert(s.take(i) =~= s);
    } else {
        let t = s.drop_last();
        assert(s.take(i) =~= t.take(i));
        lemma_split_prefix(t, i);
        lemma_split_nonempty(t);
    }
}

/// Whether a piece is `..`.
fn is_parent_piece(piece: &str) -> (b: bool)
    ensures
        b == (piece@ == parent_ref()),
{
    let n = piece.unicode_len();
    if n != 2 {
        return false;
    }
    let b = piece.get_char(0) == '.' && piece.get_char(1) == '.';
    if b {
        assert(piece@ =~= parent_ref());
    }
    b
}

/// Whether a piece is dropped by normalization (empty or `.`).
fn is_skipped_piece(piece: &str) -> (b: bool)
    ensures
        b == is_skipped(piece@),
{
    let n = piece.unicode_len();
    if n == 0 {
        return true;
    }
    if n != 1 {
        return false;
    }
    let b = piece.get_char(0) == '.';
    if b {
        assert(piece@ =~= current_ref());
    }
    b
}

/// Normalizes a drive-IRP path (backslash- or slash-separated, rooted at the
/// share, e.g. `\dir\f.txt`) into its components, refusing any `..`
/// component with `AccessDenied`. Empty components and `.` are dropped; a path
/// that normalizes to nothing denotes the share root (no components, not an
/// error).
pub fn normalize_path(path: &str) -> (r: Result<Vec<String>, FsError>)
    ensures
        match r {
            Ok(c) => path_ok(path@) && views(c@) == components(path@),
            Err(e) => escapes_root(path@) && e is AccessDenied,
        },
{
    let n = path.unicode_len();
    let mut parts: Vec<String> = Vec::new();
    let mut start: usize = 0;
    let mut i: usize = 0;
    let ghost mut done: Seq<Seq<char>> = Seq::empty();
    assert(path@.take(0) =~= Seq::<char>::empty());
    assert(path@.subrange(0, 0) =~= Seq::<char>::empty());
    while i < n
        invariant
            n == path@.len(),
            0 <= start <= i <= n,
            split_pieces(path@.take(i as int)) == done.push(path@.subrange(start as int, i as int)),
            views(parts@) == kept(done),
            !done.contains(parent_ref()),
        decreases n - i,
    {
        let c = path.get_char(i);
        proof {
            lemma_split_step(path@, i as int);
        }
        if c == '\\' || c == '/' {
            let piece = path.substring_char(start, i);
            if is_parent_piece(piece) {
                proof {
                    let pre = split_pieces(path@.take(i + 1));
                    assert(pre == done.push(piece@).push(Seq::<char>::empty()));
                    lemma_split_prefix(path@, i + 1);
                    assert(path@.take(n as int) =~= path@);
                    assert(pre[done.len() as int] == piece@);
                    assert(split_pieces(path@)[done.len() as int] == parent_ref());
                }
                return Err(FsError::AccessDenied);
            }
            let ghost old_done = done;
            if !is_skipped_piece(piece) {
                parts.push(piece.to_owned());
            }
            proof {
                done = done.push(piece@);
                assert(done.drop_last() =~= old_done);
                assert(views(parts@) =~= kept(done));
                assert(path@.subrange(i + 1, i + 1) =~= Seq::<char>::empty());
                assert(!done.contains(parent_ref())) by {
                    if done.contains(parent_ref()) {
                        let k = choose|k: int| 0 <= k < done.len() && done[k] == parent_ref();
                        if k < old_done.len() {
                            assert(old_done[k] == parent_ref());
                        }
                    }
                }
            }
            start = i + 1;
        } else {
            proof {
                assert(path@.subrange(start as int, i + 1) =~= path@.subrange(
                    start as int,
                    i as int,
                ).push(c));
                assert(done.push(path@.subrange(start as int, i as int)).update(
                    done.len() as int,
                    path@.subrange(start as int, i as int).push(c),
                ) =~= done.push(path@.subrange(start as int, i + 1)));
            }
        }
        i = i + 1;
    }
    assert(path@.take(n as int) =~= path@);
    let piece = path.substring_char(start, n);
    if is_parent_piece(piece) {
        assert(split_pieces(path@)[done.len() as int] == parent_ref());
        return Err(FsError::AccessDenied);
    }
    let ghost old_done = done;
    if !is_skipped_piece(piece) {
        parts.push(piece.to_owned());
    }
    proof {
        done = done.push(piece@);
        assert(done.drop_last() =~= old_done);
        assert(views(parts@) =~= kept(done));
        assert(done == split_pieces(path@));
        assert(!done.contains(parent_ref())) by {
            if done.contains(parent_ref()) {
                let k = choose|k: int| 0 <= k < done.len() && done[k] == parent_ref();
                if k < old_done.len() {
                    assert(old_done[k] == parent_ref());
                }
            }
        }
    }
    Ok(parts)
}

/// Whether `path` clears [`normalize_path`]: every drive-IRP path must, before
/// it reaches a filesystem operation.
pub fn path_is_valid(path: &str) -> (b: bool)
    ensures
        b == path_ok(path@),
{
    normalize_path(path).is_ok()
}

} // verus!

verus! {

/// The search pattern a `QueryDirectory` initial-query path carries: its last
/// piece, unless that is empty or the bare `*` (both mean "everything").
pub open spec fn search_pattern(s: Seq<char>) -> Option<Seq<char>> {
    let last = split_pieces(s).last();
    if last.len() == 0 || last == seq!['*'] {
        None
    } else {
        Some(last)
    }
}

/// With no separator in `s[i..]`, the last piece of `s` is the last piece of
/// `s[..i]` followed by `s[i..]`.
proof fn lemma_last_piece(s: Seq<char>, i: int)
    requires
        0 <= i <= s.len(),
        forall|k: int| i <= k < s.len() ==> !is_sep(#[trigger] s[k]),
    ensures
        split_pieces(s).last() == split_pieces(s.take(i)).last() + s.subrange(i, s.len() as int),
    decreases s.len(),
{
    if i == s.len() {
        assert(s.take(i) =~= s);
        assert(s.subrange(i, s.len() as int) =~= Seq::<char>::empty());
        assert(split_pieces(s).last() + Seq::<char>::empty() =~= split_pieces(s).last());
    } else {
        let t = s.drop_last();
        assert(s.take(i) =~= t.take(i));
        lemma_last_piece(t, i);
        lemma_split_nonempty(t);
        assert(!is_sep(s.last()));
        assert(s.subrange(i, s.len() as int) =~= t.subrange(i, t.len() as int).push(s.last()));
        assert(split_pieces(s.take(i)).last() + s.subrange(i, s.len() as int) =~= (
        split_pieces(t.take(i)).last() + t.subrange(i, t.len() as int)).push(s.last()));
    }
}

/// Extracts the search pattern from a `QueryDirectory` initial-query path:
/// `\dir\*.txt` gives `*.txt`, `\dir\report.pdf` gives `report.pdf` (an
/// exact-name existence check); `None` (no filter) for a bare `*` or an empty
/// last piece.
pub fn dir_search_pattern(path: &str) -> (r: Option<String>)
    ensures
        match r {
            Some(p) => search_pattern(path@) == Some(p@),
            None => search_pattern(path@) is None,
        },
{
    let n = path.unicode_len();
    let mut i: usize = n;
    while i > 0
        invariant
            n == path@.len(),
            i <= n,
            forall|k: int| i <= k < n ==> !is_sep(#[trigger] path@[k]),
        ensures
            i == 0 || is_sep(path@[i - 1]),
        decreases i,
    {
        let c = path.get_char(i - 1);
        if c == '\\' || c == '/' {
            break;
        }
        i = i - 1;
    }
    proof {
        lemma_last_piece(path@, i as int);
        if i > 0 {
            lemma_split_step(path@, i - 1);
        } else {
            assert(path@.take(0) =~= Seq::<char>::empty());
        }
        assert(split_pieces(path@.take(i as int)).last() =~= Seq::<char>::empty());
        assert(split_pieces(path@).last() =~= path@.subrange(i as int, n as int));
    }
    let pattern = path.substring_char(i, n);
    let m = pattern.unicode_len();
    if m == 0 {
        return None;
    }
    if m == 1 && pattern.get_char(0) == '*' {
        assert(pattern@ =~= seq!['*']);
        return None;
    }
    Some(pattern.to_owned())
}

} // verus!

verus! {

/// No piece of a split holds a separator.
proof fn lemma_pieces_have_no_separator(s: Seq<char>)
    ensures
        forall|k: int, x: int|
            0 <= k < split_pieces(s).len() && 0 <= x < split_pieces(s)[k].len() ==> !is_sep(
                #[trigger] split_pieces(s)[k][x],
            ),
    decreases s.len(),
{
    if s.len() > 0 {
        let t = s.drop_last();
        lemma_pieces_have_no_separator(t);
        lemma_split_nonempty(t);
        let prev = split_pieces(t);
        assert forall|k: int, x: int|
            0 <= k < split_pieces(s).len() && 0 <= x < split_pieces(s)[k].len() implies !is_sep(
            #[trigger] split_pieces(s)[k][x],
        ) by {
            if k < prev.len() - 1 {
                assert(split_pieces(s)[k] == prev[k]);
            } else if k == prev.len() - 1 {
                if !is_sep(s.last()) {
                    assert(split_pieces(s)[k] == prev[k].push(s.last()));
                    if x < prev[k].len() {
                        assert(split_pieces(s)[k][x] == prev[k][x]);
                    }
                } else {
                    assert(split_pieces(s)[k] == prev[k]);
                }
            }
        }
    }
}

/// Every kept piece is one of the pieces, and is neither empty nor `.`.
proof fn lemma_kept_pieces(pieces: Seq<Seq<char>>)
    ensures
        forall|k: int|
            0 <= k < kept(pieces).len() ==> !is_skipped(#[trigger] kept(pieces)[k]) && exists|m: int|
                0 <= m < pieces.len() && pieces[m] == kept(pieces)[k],
    decreases pieces.len(),
{
    if pieces.len() > 0 {
        let t = pieces.drop_last();
        lemma_kept_pieces(t);
        assert forall|k: int| 0 <= k < kept(pieces).len() implies !is_skipped(
            #[trigger] kept(pieces)[k],
        ) && exists|m: int| 0 <= m < pieces.len() && pieces[m] == kept(pieces)[k] by {
            if k < kept(t).len() {
                assert(kept(pieces)[k] == kept(t)[k]);
                let m = choose|m: int| 0 <= m < t.len() && t[m] == kept(t)[k];
                assert(pieces[m] == t[m]);
            } else {
                assert(kept(pieces)[k] == pieces.last());
                assert(pieces[pieces.len() - 1] == pieces.last());
            }
        }
    }
}

/// Every component of a path that clears normalization is a plain name: it
/// is not empty, it is neither `.` nor `..`, and it holds no separator.
pub proof fn lemma_components_are_plain_names(s: Seq<char>)
    requires
        path_ok(s),
    ensures
        forall|k: int|
            0 <= k < components(s).len() ==> {
                let c = #[trigger] components(s)[k];
                &&& c.len() > 0
                &&& c != current_ref()
                &&& c != parent_ref()
                &&& forall|x: int| 0 <= x < c.len() ==> !is_sep(c[x])
            },
{
    let pieces = split_pieces(s);
    lemma_kept_pieces(pieces);
    lemma_pieces_have_no_separator(s);
    assert forall|k: int| 0 <= k < components(s).len() implies {
        let c = #[trigger] components(s)[k];
        &&& c.len() > 0
        &&& c != current_ref()
        &&& c != parent_ref()
        &&& forall|x: int| 0 <= x < c.len() ==> !is_sep(c[x])
    } by {
        let c = components(s)[k];
        let m = choose|m: int| 0 <= m < pieces.len() && pieces[m] == kept(pieces)[k];
        assert(pieces[m] == c);
        assert(c != parent_ref()) by {
            if c == parent_ref() {
                assert(pieces.contains(parent_ref()));
            }
        }
        assert forall|x: int| 0 <= x < c.len() implies !is_sep(c[x]) by {
            assert(!is_sep(split_pieces(s)[m][x]));
        }
    }
}

} // verus!

verus! {

/// A plain component: not empty, neither `.` nor `..`, and free of separators.
pub open spec fn plain_name(c: Seq<char>) -> bool {
    &&& c.len() > 0
    &&& c != current_ref()
    &&& c != parent_ref()
    &&& forall|x: int| 0 <= x < c.len() ==> !is_sep(#[trigger] c[x])
}

/// The components `v` joined with the separator `sep` (`a\b\c`).
pub open spec fn joined(v: Seq<Seq<char>>, sep: char) -> Seq<char>
    decreases v.len(),
{
    if v.len() == 0 {
        Seq::empty()
    } else if v.len() == 1 {
        v[0]
    } else {
        joined(v.drop_last(), sep).push(sep) + v.last()
    }
}

/// The components `v`, each preceded by the separator `sep` (`\a\b\c`).
pub open spec fn rooted(v: Seq<Seq<char>>, sep: char) -> Seq<char>
    decreases v.len(),
{
    if v.len() == 0 {
        Seq::empty()
    } else {
        rooted(v.drop_last(), sep).push(sep) + v.last()
    }
}

/// Appending a separator-free stretch `t` extends the last piece.
proof fn lemma_split_append_plain(s: Seq<char>, t: Seq<char>)
    requires
        forall|x: int| 0 <= x < t.len() ==> !is_sep(#[trigger] t[x]),
    ensures
        split_pieces(s + t) == split_pieces(s).update(
            split_pieces(s).len() - 1,
            split_pieces(s).last() + t,
        ),
    decreases t.len(),
{
    lemma_split_nonempty(s);
    if t.len() == 0 {
        assert(s + t =~= s);
        assert(split_pieces(s).last() + t =~= split_pieces(s).last());
        assert(split_pieces(s).update(split_pieces(s).len() - 1, split_pieces(s).last())
            =~= split_pieces(s));
    } else {
        let u = t.drop_last();
        lemma_split_append_plain(s, u);
        assert((s + t).drop_last() =~= s + u);
        assert((s + t).last() == t.last());
        assert(!is_sep(t[t.len() - 1]));
        let p = split_pieces(s);
        let q = p.update(p.len() - 1, p.last() + u);
        assert(q.last() == p.last() + u);
        assert(q.update(q.len() - 1, q.last().push(t.last())) =~= p.update(p.len() - 1, p.last() + t))
            by {
            assert((p.last() + u).push(t.last()) =~= p.last() + t);
        }
    }
}

/// After a separator and then a separator-free stretch `t`, the pieces are
/// those before the separator followed by `t`.
proof fn lemma_split_after_separator(s: Seq<char>, sep: char, t: Seq<char>)
    requires
        is_sep(sep),
        forall|x: int| 0 <= x < t.len() ==> !is_sep(#[trigger] t[x]),
    ensures
        split_pieces(s.push(sep) + t) == split_pieces(s).push(t),
{
    assert(s.push(sep).drop_last() =~= s);
    assert(split_pieces(s.push(sep)) == split_pieces(s).push(Seq::<char>::empty()));
    lemma_split_append_plain(s.push(sep), t);
    let p = split_pieces(s).push(Seq::<char>::empty());
    assert(Seq::<char>::empty() + t =~= t);
    assert(p.update(p.len() - 1, p.last() + t) =~= split_pieces(s).push(t));
}

/// Pieces that normalization never drops are all kept.
proof fn lemma_kept_all(v: Seq<Seq<char>>)
    requires
        forall|k: int| 0 <= k < v.len() ==> !is_skipped(#[trigger] v[k]),
    ensures
        kept(v) == v,
    decreases v.len(),
{
    if v.len() > 0 {
        assert(!is_skipped(v[v.len() - 1]));
        lemma_kept_all(v.drop_last());
        assert(kept(v.drop_last()).push(v.last()) =~= v);
    }
}

/// A leading empty piece is dropped.
proof fn lemma_kept_after_empty(v: Seq<Seq<char>>)
    ensures
        kept(seq![Seq::<char>::empty()] + v) == kept(v),
    decreases v.len(),
{
    let e = seq![Seq::<char>::empty()];
    assert(is_skipped(Seq::<char>::empty()));
    if v.len() == 0 {
        assert(e + v =~= e);
        assert(e.drop_last() =~= Seq::<Seq<char>>::empty());
        assert(e.last() == Seq::<char>::empty());
        assert(kept(e) == kept(e.drop_last()));
    } else {
        lemma_kept_after_empty(v.drop_last());
        assert((e + v).drop_last() =~= e + v.drop_last());
        assert((e + v).last() == v.last());
    }
}

proof fn lemma_split_joined(v: Seq<Seq<char>>, sep: char)
    requires
        v.len() > 0,
        is_sep(sep),
        forall|k: int| 0 <= k < v.len() ==> plain_name(#[trigger] v[k]),
    ensures
        split_pieces(joined(v, sep)) == v,
    decreases v.len(),
{
    if v.len() == 1 {
        assert(plain_name(v[0]));
        lemma_split_append_plain(Seq::empty(), v[0]);
        assert(Seq::<char>::empty() + v[0] =~= v[0]);
        assert(split_pieces(Seq::<char>::empty()) == seq![Seq::<char>::empty()]);
        assert(seq![Seq::<char>::empty()].update(0, Seq::<char>::empty() + v[0]) =~= v);
    } else {
        let w = v.drop_last();
        assert forall|k: int| 0 <= k < w.len() implies plain_name(#[trigger] w[k]) by {
            assert(plain_name(v[k]));
        }
        lemma_split_joined(w, sep);
        assert(plain_name(v[v.len() - 1]));
        lemma_split_after_separator(joined(w, sep), sep, v.last());
        assert(w.push(v.last()) =~= v);
    }
}

proof fn lemma_split_rooted(v: Seq<Seq<char>>, sep: char)
    requires
        is_sep(sep),
        forall|k: int| 0 <= k < v.len() ==> plain_name(#[trigger] v[k]),
    ensures
        split_pieces(rooted(v, sep)) == seq![Seq::<char>::empty()] + v,
    decreases v.len(),
{
    if v.len() == 0 {
        assert(seq![Seq::<char>::empty()] + v =~= seq![Seq::<char>::empty()]);
    } else {
        let w = v.drop_last();
        assert forall|k: int| 0 <= k < w.len() implies plain_name(#[trigger] w[k]) by {
            assert(plain_name(v[k]));
        }
        lemma_split_rooted(w, sep);
        assert(plain_name(v[v.len() - 1]));
        lemma_split_after_separator(rooted(w, sep), sep, v.last());
        assert((seq![Seq::<char>::empty()] + w).push(v.last()) =~= seq![Seq::<char>::empty()] + v);
    }
}

/// Normalization gives plain components back: joining them with either
/// separator, with or without a leading one, yields a path that
/// normalization accepts and whose components are exactly them.
pub proof fn lemma_normalization_round_trip(v: Seq<Seq<char>>, sep: char)
    requires
        is_sep(sep),
        forall|k: int| 0 <= k < v.len() ==> plain_name(#[trigger] v[k]),
    ensures
        path_ok(joined(v, sep)),
        components(joined(v, sep)) == v,
        path_ok(rooted(v, sep)),
        components(rooted(v, sep)) == v,
{
    assert forall|k: int| 0 <= k < v.len() implies !is_skipped(#[trigger] v[k]) by {
        assert(plain_name(v[k]));
    }
    lemma_kept_all(v);
    if v.len() == 0 {
        assert(split_pieces(joined(v, sep)) == seq![Seq::<char>::empty()]);
        assert(kept(seq![Seq::<char>::empty()]) == kept(seq![Seq::<char>::empty()].drop_last()));
        assert(seq![Seq::<char>::empty()].drop_last() =~= Seq::<Seq<char>>::empty());
        assert(seq![Seq::<char>::empty()][0] != parent_ref());
        assert(!seq![Seq::<char>::empty()].contains(parent_ref()));
    } else {
        lemma_split_joined(v, sep);
        assert(!v.contains(parent_ref())) by {
            if v.contains(parent_ref()) {
                let k = choose|k: int| 0 <= k < v.len() && v[k] == parent_ref();
                assert(plain_name(v[k]));
            }
        }
    }
    lemma_split_rooted(v, sep);
    lemma_kept_after_empty(v);
    assert(!(seq![Seq::<char>::empty()] + v).contains(parent_ref())) by {
        if (seq![Seq::<char>::empty()] + v).contains(parent_ref()) {
            let k = choose|k: int|
                0 <= k < v.len() + 1 && (seq![Seq::<char>::empty()] + v)[k] == parent_ref();
            if k > 0 {
                assert(v[k - 1] == parent_ref());
                assert(plain_name(v[k - 1]));
            } else {
                assert((seq![Seq::<char>::empty()] + v)[0] == Seq::<char>::empty());
                assert(parent_ref().len() == 2);
            }
        }
    }
}

} // verus!
