//! DOS/Windows wildcard matching of directory-entry names against a
//! `QueryDirectory` search pattern.

use vstd::prelude::*;

verus! {

/// ASCII lower-casing of one character: `A`..=`Z` map to `a`..=`z`, every
/// other character is unchanged.
pub open spec fn ascii_lower(c: char) -> char {
    if 'A' <= c && c <= 'Z' {
        ((c as u32) + 32) as char
    } else {
        c
    }
}

/// ASCII lower-casing of a whole sequence.
pub open spec fn lower_seq(s: Seq<char>) -> Seq<char> {
    s.map_values(|c: char| ascii_lower(c))
}

/// Whether `p[i..]` matches `n[j..]`, with `*` matching any run of
/// characters (including none), `?` exactly one character, and any other
/// pattern character itself.
pub open spec fn wild_at(p: Seq<char>, n: Seq<char>, i: int, j: int) -> bool
    decreases (p.len() - i) + (n.len() - j),
{
    if i < 0 || j < 0 || i > p.len() || j > n.len() {
        false
    } else if i == p.len() {
        j == n.len()
    } else if p[i] == '*' {
        wild_at(p, n, i + 1, j) || (j < n.len() && wild_at(p, n, i, j + 1))
    } else {
        j < n.len() && (p[i] == '?' || p[i] == n[j]) && wild_at(p, n, i + 1, j + 1)
    }
}

/// Whether the whole of `p` matches the whole of `n`.
pub open spec fn wild_match(p: Seq<char>, n: Seq<char>) -> bool {
    wild_at(p, n, 0, 0)
}

/// Case-insensitive wildcard match of a name against a pattern.
pub open spec fn dos_match(pattern: Seq<char>, name: Seq<char>) -> bool {
    wild_match(lower_seq(pattern), lower_seq(name))
}

/// Whether some `k` in `[j, n.len()]` has `p[i..]` matching `n[k..]`.
pub open spec fn some_suffix(p: Seq<char>, n: Seq<char>, i: int, j: int) -> bool {
    exists|k: int| j <= k <= n.len() && #[trigger] wild_at(p, n, i, k)
}

/// A `*` at `p[i]` matches `n[j..]` exactly when the rest of the pattern
/// matches some suffix `n[k..]` with `k >= j`.
proof fn lemma_star(p: Seq<char>, n: Seq<char>, i: int, j: int)
    requires
        0 <= i < p.len(),
        0 <= j <= n.len(),
        p[i] == '*',
    ensures
        wild_at(p, n, i, j) == some_suffix(p, n, i + 1, j),
    decreases n.len() - j,
{
    if j < n.len() {
        lemma_star(p, n, i, j + 1);
        assert(wild_at(p, n, i, j) == (wild_at(p, n, i + 1, j) || wild_at(p, n, i, j + 1)));
        if some_suffix(p, n, i + 1, j) {
            let k = choose|k: int| j <= k <= n.len() && #[trigger] wild_at(p, n, i + 1, k);
            if k > j {
                assert(some_suffix(p, n, i + 1, j + 1));
            }
        }
        if wild_at(p, n, i, j + 1) {
            let k = choose|k: int| j + 1 <= k <= n.len() && #[trigger] wild_at(p, n, i + 1, k);
            assert(some_suffix(p, n, i + 1, j));
        }
        if wild_at(p, n, i + 1, j) {
            assert(some_suffix(p, n, i + 1, j));
        }
    } else {
        assert(wild_at(p, n, i, j) == wild_at(p, n, i + 1, j));
        if some_suffix(p, n, i + 1, j) {
            let k = choose|k: int| j <= k <= n.len() && #[trigger] wild_at(p, n, i + 1, k);
            assert(k == j);
        }
        if wild_at(p, n, i + 1, j) {
            assert(some_suffix(p, n, i + 1, j));
        }
    }
}

/// Pushing a match through a star-free stretch `p[i..i + len]` advances the
/// name position by exactly `len`.
proof fn lemma_run(p: Seq<char>, n: Seq<char>, i: int, k: int, len: int)
    requires
        0 <= i,
        0 <= len,
        i + len <= p.len(),
        0 <= k,
        forall|x: int| i <= x < i + len ==> #[trigger] p[x] != '*',
        wild_at(p, n, i, k),
    ensures
        k + len <= n.len(),
        wild_at(p, n, i + len, k + len),
    decreases len,
{
    if len > 0 {
        assert(p[i] != '*');
        lemma_run(p, n, i + 1, k + 1, len - 1);
    }
}

} // verus!

verus! {

/// ASCII lower-casing of one character.
fn ascii_lower_char(c: char) -> (r: char)
    ensures
        r == ascii_lower(c),
{
    if 'A' <= c && c <= 'Z' {
        let b = (c as u8) + 32;
        b as char
    } else {
        c
    }
}

/// The characters of `s`, ASCII lower-cased.
fn lowered_chars(s: &str) -> (v: Vec<char>)
    ensures
        v@ == lower_seq(s@),
{
    let len = s.unicode_len();
    let mut v: Vec<char> = Vec::new();
    let mut i: usize = 0;
    while i < len
        invariant
            len == s@.len(),
            i <= len,
            v@ == lower_seq(s@.take(i as int)),
        decreases len - i,
    {
        let c = ascii_lower_char(s.get_char(i));
        v.push(c);
        i = i + 1;
        assert(lower_seq(s@.take(i as int)) =~= lower_seq(s@.take(i - 1)).push(ascii_lower(s@[i - 1])));
    }
    assert(s@.take(len as int) =~= s@);
    v
}

/// DOS/Windows wildcard match, case-insensitive for ASCII letters: `*`
/// matches any run of characters (including none), `?` exactly one
/// character. Greedy two-pointer matching that backtracks only to the most
/// recent `*`, so an adversarial pattern cannot exhaust the stack.
pub fn dos_wildcard_match(pattern: &str, name: &str) -> (b: bool)
    ensures
        b == dos_match(pattern@, name@),
{
    let pat = lowered_chars(pattern);
    let nam = lowered_chars(name);
    let ghost pp = pat@;
    let ghost nn = nam@;
    let pl = pat.len();
    let nl = nam.len();
    let mut p: usize = 0;
    let mut n: usize = 0;
    let mut star_p: Option<usize> = None;
    let mut star_n: usize = 0;
    while n < nl
        invariant
            pp == lower_seq(pattern@),
            nn == lower_seq(name@),
            pp == pat@,
            nn == nam@,
            pl == pp.len(),
            nl == nn.len(),
            p <= pl,
            n <= nl,
            star_n <= n,
            match star_p {
                None => wild_match(pp, nn) == wild_at(pp, nn, p as int, n as int),
                Some(sp) => {
                    &&& sp < p
                    &&& pp[sp as int] == '*'
                    &&& wild_match(pp, nn) == some_suffix(pp, nn, sp + 1, star_n as int)
                    &&& wild_at(pp, nn, sp + 1, star_n as int) == wild_at(
                        pp,
                        nn,
                        p as int,
                        n as int,
                    )
                    &&& p - (sp + 1) == n - star_n
                    &&& forall|x: int| sp + 1 <= x < p ==> #[trigger] pp[x] != '*'
                },
            },
        decreases nl - star_n, (nl - n) + (pl - p),
    {
        if p < pl && pat[p] == '*' {
            proof {
                lemma_star(pp, nn, p as int, n as int);
                match star_p {
                    None => {},
                    Some(sp) => {
                        let len = p - (sp + 1);
                        if some_suffix(pp, nn, sp + 1, star_n as int) {
                            let k = choose|k: int|
                                star_n <= k <= nl && #[trigger] wild_at(pp, nn, sp + 1, k);
                            lemma_run(pp, nn, sp + 1, k, len);
                            lemma_star(pp, nn, p as int, k + len);
                            let k2 = choose|k2: int|
                                k + len <= k2 <= nl && #[trigger] wild_at(pp, nn, p + 1, k2);
                            assert(some_suffix(pp, nn, p + 1, n as int));
                        }
                        if some_suffix(pp, nn, p + 1, n as int) {
                            assert(wild_at(pp, nn, sp + 1, star_n as int));
                            assert(some_suffix(pp, nn, sp + 1, star_n as int));
                        }
                    },
                }
            }
            star_p = Some(p);
            star_n = n;
            p = p + 1;
        } else if p < pl && (pat[p] == '?' || pat[p] == nam[n]) {
            proof {
                assert(wild_at(pp, nn, p as int, n as int) == wild_at(
                    pp,
                    nn,
                    p + 1,
                    n + 1,
                ));
            }
            p = p + 1;
            n = n + 1;
        } else if let Some(sp) = star_p {
            proof {
                assert(!wild_at(pp, nn, p as int, n as int));
                if some_suffix(pp, nn, sp + 1, star_n as int) {
                    let k = choose|k: int|
                        star_n <= k <= nl && #[trigger] wild_at(pp, nn, sp + 1, k);
                    assert(k != star_n);
                    assert(some_suffix(pp, nn, sp + 1, star_n + 1));
                }
                if some_suffix(pp, nn, sp + 1, star_n + 1) {
                    let k = choose|k: int|
                        star_n + 1 <= k <= nl && #[trigger] wild_at(pp, nn, sp + 1, k);
                    assert(some_suffix(pp, nn, sp + 1, star_n as int));
                }
            }
            p = sp + 1;
            star_n = star_n + 1;
            n = star_n;
        } else {
            assert(!wild_at(pp, nn, p as int, n as int));
            return false;
        }
    }
    proof {
        match star_p {
            None => {},
            Some(sp) => {
                let len = p - (sp + 1);
                if some_suffix(pp, nn, sp + 1, star_n as int) {
                    let k = choose|k: int|
                        star_n <= k <= nl && #[trigger] wild_at(pp, nn, sp + 1, k);
                    lemma_run(pp, nn, sp + 1, k, len);
                    assert(k == star_n);
                }
                if wild_at(pp, nn, sp + 1, star_n as int) {
                    assert(some_suffix(pp, nn, sp + 1, star_n as int));
                }
            },
        }
    }
    while p < pl && pat[p] == '*'
        invariant
            pp == pat@,
            nn == nam@,
            pl == pp.len(),
            nl == nn.len(),
            n == nl,
            p <= pl,
            wild_match(pp, nn) == wild_at(pp, nn, p as int, n as int),
        decreases pl - p,
    {
        proof {
            lemma_star(pp, nn, p as int, n as int);
            if some_suffix(pp, nn, p + 1, n as int) {
                let k = choose|k: int| n <= k <= nl && #[trigger] wild_at(pp, nn, p + 1, k);
                assert(k == n);
            }
            if wild_at(pp, nn, p + 1, n as int) {
                assert(some_suffix(pp, nn, p + 1, n as int));
            }
        }
        p = p + 1;
    }
    p == pl
}

} // verus!

verus! {

/// Lower-casing is idempotent on a character.
proof fn lemma_lower_idempotent_char(c: char)
    ensures
        ascii_lower(ascii_lower(c)) == ascii_lower(c),
{
}

/// Lower-casing never produces a wildcard from a non-wildcard.
proof fn lemma_lower_keeps_wildcards(c: char)
    ensures
        (ascii_lower(c) == '*') == (c == '*'),
        (ascii_lower(c) == '?') == (c == '?'),
{
}

/// The pattern `*` matches every name.
pub proof fn lemma_star_matches_every_name(name: Seq<char>)
    ensures
        dos_match(seq!['*'], name),
{
    let p = lower_seq(seq!['*']);
    let n = lower_seq(name);
    assert(p =~= seq!['*']);
    assert(wild_at(p, n, 1, n.len() as int));
    lemma_star(p, n, 0, 0);
    assert(some_suffix(p, n, 1, 0));
}

/// Matching ignores ASCII case: lower-casing the pattern or the name first
/// changes nothing.
pub proof fn lemma_match_ignores_ascii_case(pattern: Seq<char>, name: Seq<char>)
    ensures
        dos_match(pattern, name) == dos_match(lower_seq(pattern), lower_seq(name)),
        dos_match(pattern, name) == dos_match(lower_seq(pattern), name),
        dos_match(pattern, name) == dos_match(pattern, lower_seq(name)),
{
    assert forall|i: int| 0 <= i < pattern.len() implies lower_seq(lower_seq(pattern))[i] == lower_seq(
        pattern,
    )[i] by {
        lemma_lower_idempotent_char(pattern[i]);
    }
    assert forall|i: int| 0 <= i < name.len() implies lower_seq(lower_seq(name))[i] == lower_seq(
        name,
    )[i] by {
        lemma_lower_idempotent_char(name[i]);
    }
    assert(lower_seq(lower_seq(pattern)) =~= lower_seq(pattern));
    assert(lower_seq(lower_seq(name)) =~= lower_seq(name));
}

/// Against a wildcard-free pattern, `p[i..]` matches `n[j..]` exactly when
/// the two are equal.
proof fn lemma_literal_at(p: Seq<char>, n: Seq<char>, i: int, j: int)
    requires
        0 <= i <= p.len(),
        0 <= j <= n.len(),
        forall|x: int| 0 <= x < p.len() ==> #[trigger] p[x] != '*' && p[x] != '?',
    ensures
        wild_at(p, n, i, j) == (p.subrange(i, p.len() as int) == n.subrange(j, n.len() as int)),
    decreases p.len() - i,
{
    if i == p.len() {
        if j < n.len() {
            assert(n.subrange(j, n.len() as int).len() > 0);
        }
        assert(p.subrange(i, p.len() as int) =~= Seq::<char>::empty());
        assert(j == n.len() ==> n.subrange(j, n.len() as int) =~= Seq::<char>::empty());
    } else {
        assert(p[i] != '*' && p[i] != '?');
        if j < n.len() {
            lemma_literal_at(p, n, i + 1, j + 1);
            let ps = p.subrange(i, p.len() as int);
            let ns = n.subrange(j, n.len() as int);
            let pt = p.subrange(i + 1, p.len() as int);
            let nt = n.subrange(j + 1, n.len() as int);
            if ps == ns {
                assert(ps[0] == ns[0]);
                assert(pt =~= ps.subrange(1, ps.len() as int));
                assert(nt =~= ns.subrange(1, ns.len() as int));
            }
            if p[i] == n[j] && pt == nt {
                assert(ps.len() == ns.len());
                assert forall|k: int| 0 <= k < ps.len() implies ps[k] == ns[k] by {
                    if k > 0 {
                        assert(ps[k] == pt[k - 1]);
                        assert(ns[k] == nt[k - 1]);
                    }
                }
                assert(ps =~= ns);
            }
        } else {
            assert(p.subrange(i, p.len() as int).len() > 0);
        }
    }
}

/// A pattern with neither `*` nor `?` matches exactly the names equal to it
/// ignoring ASCII case.
pub proof fn lemma_literal_pattern_matches_its_name(pattern: Seq<char>, name: Seq<char>)
    requires
        forall|x: int| 0 <= x < pattern.len() ==> #[trigger] pattern[x] != '*' && pattern[x] != '?',
    ensures
        dos_match(pattern, name) == (lower_seq(pattern) == lower_seq(name)),
{
    let p = lower_seq(pattern);
    let n = lower_seq(name);
    assert forall|x: int| 0 <= x < p.len() implies #[trigger] p[x] != '*' && p[x] != '?' by {
        lemma_lower_keeps_wildcards(pattern[x]);
    }
    lemma_literal_at(p, n, 0, 0);
    assert(p.subrange(0, p.len() as int) =~= p);
    assert(n.subrange(0, n.len() as int) =~= n);
}

} // verus!
