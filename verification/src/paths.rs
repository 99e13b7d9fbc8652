use vstd::prelude::*;
use vstd::string::*;

verus! {

/// Index of the last `'/'` in `s`, or `-1` when none occurs.
pub open spec fn last_slash_index(s: Seq<char>) -> int
    decreases s.len(),
{
    if s.len() == 0 {
        -1
    } else if s[s.len() - 1] == '/' {
        s.len() - 1
    } else {
        last_slash_index(s.take(s.len() - 1))
    }
}

/// The final component of the path `s`: what follows the last `'/'`, or all
/// of `s` when no `'/'` occurs. `None` when that component is empty — for an
/// empty path or one that ends in `'/'`.
pub open spec fn basename_spec(s: Seq<char>) -> Option<Seq<char>> {
    if last_slash_index(s) + 1 == s.len() {
        None
    } else {
        Some(s.subrange(last_slash_index(s) + 1, s.len() as int))
    }
}

pub proof fn lemma_last_slash_index_bounds(s: Seq<char>)
    ensures
        -1 <= last_slash_index(s) < s.len(),
    decreases s.len(),
{
    if s.len() != 0 && s[s.len() - 1] != '/' {
        lemma_last_slash_index_bounds(s.take(s.len() - 1));
    }
}

/// Whether `p` is the path `base` itself, or lies below it: `base`, a `'/'`,
/// and a relative remainder.
pub open spec fn path_below(base: Seq<char>, p: Seq<char>) -> bool {
    p == base || (exists|rel: Seq<char>| p == #[trigger] (base + seq!['/'] + rel))
}

/// Whether the pair `(s, d)` is the pair `(source, dest)` itself, or extends
/// both by a `'/'` and one and the same relative remainder — the shape of
/// every source/destination pair a walk rooted at `(source, dest)` visits.
pub open spec fn paths_below(source: Seq<char>, dest: Seq<char>, s: Seq<char>, d: Seq<char>) -> bool {
    (s == source && d == dest) || (exists|rel: Seq<char>|
        s == #[trigger] (source + seq!['/'] + rel) && d == dest + seq!['/'] + rel)
}

/// A pair below `(source, dest)`, extended on both sides by one and the same
/// entry name, is still below `(source, dest)`.
pub proof fn lemma_paths_below_child(
    source: Seq<char>,
    dest: Seq<char>,
    s: Seq<char>,
    d: Seq<char>,
    n: Seq<char>,
)
    requires
        paths_below(source, dest, s, d),
    ensures
        paths_below(source, dest, s + seq!['/'] + n, d + seq!['/'] + n),
{
    if s == source && d == dest {
        assert(s + seq!['/'] + n == source + seq!['/'] + n);
    } else {
        let rel = choose|rel: Seq<char>|
            s == #[trigger] (source + seq!['/'] + rel) && d == dest + seq!['/'] + rel;
        let rel2 = rel + seq!['/'] + n;
        assert(s + seq!['/'] + n =~= source + seq!['/'] + rel2);
        assert(d + seq!['/'] + n =~= dest + seq!['/'] + rel2);
    }
}

/// Each side of a pair below `(source, dest)` lies below its own root.
pub proof fn lemma_paths_below_sides(source: Seq<char>, dest: Seq<char>, s: Seq<char>, d: Seq<char>)
    requires
        paths_below(source, dest, s, d),
    ensures
        path_below(source, s),
        path_below(dest, d),
{
    if !(s == source && d == dest) {
        let rel = choose|rel: Seq<char>|
            s == #[trigger] (source + seq!['/'] + rel) && d == dest + seq!['/'] + rel;
        assert(s == source + seq!['/'] + rel);
        assert(d == dest + seq!['/'] + rel);
    }
}

/// Lying below a path is transitive.
pub proof fn lemma_path_below_trans(a: Seq<char>, b: Seq<char>, c: Seq<char>)
    requires
        path_below(a, b),
        path_below(b, c),
    ensures
        path_below(a, c),
{
    if b != a && c != b {
        let r1 = choose|rel: Seq<char>| b == #[trigger] (a + seq!['/'] + rel);
        let r2 = choose|rel: Seq<char>| c == #[trigger] (b + seq!['/'] + rel);
        assert(c =~= a + seq!['/'] + (r1 + seq!['/'] + r2));
    }
}

/// Join a directory path and the name of one of its entries with a `'/'`.
pub fn join_path(dir: &str, name: &str) -> (r: String)
    ensures
        r@ == dir@ + seq!['/'] + name@,
{
    let mut r: String = String::from_str(dir);
    r.append("/");
    r.append(name);
    proof {
        reveal_strlit("/");
        assert(("/")@ =~= seq!['/']);
        assert(r@ =~= dir@ + seq!['/'] + name@);
    }
    r
}

/// The final component of `path`, as [`basename_spec`] describes it.
pub fn basename(path: &str) -> (r: Option<String>)
    ensures
        r matches Some(b) ==> basename_spec(path@) == Some(b@),
        r is None ==> basename_spec(path@) is None,
{
    let n = path.unicode_len();
    let mut k: usize = 0;
    let mut cut: usize = 0;
    while k < n
        invariant
            k <= n,
            n == path@.len(),
            cut <= k,
            cut == last_slash_index(path@.take(k as int)) + 1,
        decreases n - k,
    {
        let c = path.get_char(k);
        proof {
            assert(path@.take(k + 1).len() == k + 1);
            assert(path@.take(k + 1)[k as int] == path@[k as int]);
            assert(path@.take(k + 1).take(k as int) =~= path@.take(k as int));
            lemma_last_slash_index_bounds(path@.take(k + 1));
        }
        if c == '/' {
            cut = k + 1;
        }
        k = k + 1;
    }
    proof {
        assert(path@.take(n as int) =~= path@);
    }
    if cut == n {
        None
    } else {
        let b = path.substring_char(cut, n);
        Some(String::from_str(b))
    }
}

} // verus!
