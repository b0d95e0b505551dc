use vstd::prelude::*;

verus! {

/// True when the byte is ASCII whitespace: tab, line feed, vertical tab,
/// form feed, carriage return or space.
pub open spec fn is_space(b: u8) -> bool {
    b == 9 || b == 10 || b == 11 || b == 12 || b == 13 || b == 32
}

/// True when the byte is a single or double quote.
pub open spec fn is_quote(b: u8) -> bool {
    b == 34 || b == 39
}

/// The sequence of views of a sequence of byte vectors.
pub open spec fn views_of(v: Seq<Vec<u8>>) -> Seq<Seq<u8>> {
    Seq::new(v.len(), |i: int| v[i]@)
}

/// The needle stands in the haystack at offset `i`.
pub open spec fn match_at(hay: Seq<u8>, nd: Seq<u8>, i: int) -> bool {
    0 <= i && i + nd.len() <= hay.len() && hay.subrange(i, i + nd.len() as int) == nd
}

/// The needle occurs somewhere in the haystack as a contiguous run.
pub open spec fn contains_seq(hay: Seq<u8>, nd: Seq<u8>) -> bool {
    exists|i: int| match_at(hay, nd, i)
}

/// The sequence ends with the given suffix.
pub open spec fn ends_with(s: Seq<u8>, suffix: Seq<u8>) -> bool {
    s.len() >= suffix.len() && s.subrange(s.len() - suffix.len(), s.len() as int) == suffix
}

/// Index of the first occurrence of byte `b` in `s` at or after `i`,
/// or the length of `s` when there is none.
pub open spec fn find_from(s: Seq<u8>, b: u8, i: int) -> int
    decreases s.len() - i,
{
    if i < 0 || i >= s.len() {
        s.len() as int
    } else if s[i] == b {
        i
    } else {
        find_from(s, b, i + 1)
    }
}

/// Index just past the leading whitespace of `s`, scanning from `i`.
pub open spec fn skip_space(s: Seq<u8>, i: int) -> int
    decreases s.len() - i,
{
    if i < 0 || i >= s.len() {
        s.len() as int
    } else if is_space(s[i]) {
        skip_space(s, i + 1)
    } else {
        i
    }
}

/// Index just before the trailing whitespace of `s.subrange(0, j)`:
/// the least `k` such that bytes `k..j` are all whitespace.
pub open spec fn rskip_space(s: Seq<u8>, j: int) -> int
    decreases j,
{
    if j <= 0 || j > s.len() {
        0
    } else if is_space(s[j - 1]) {
        rskip_space(s, j - 1)
    } else {
        j
    }
}

pub proof fn lemma_rskip_space_bounds(s: Seq<u8>, j: int)
    requires
        0 <= j <= s.len(),
    ensures
        0 <= rskip_space(s, j) <= j,
        rskip_space(s, j) > 0 ==> !is_space(s[rskip_space(s, j) - 1]),
        forall|k: int| rskip_space(s, j) <= k < j ==> is_space(s[k]),
    decreases j,
{
    if 0 < j && is_space(s[j - 1]) {
        lemma_rskip_space_bounds(s, j - 1);
    }
}

/// `s` with leading and trailing whitespace removed.
pub open spec fn trim_spec(s: Seq<u8>) -> Seq<u8> {
    let a = skip_space(s, 0);
    let b = rskip_space(s, s.len() as int);
    if a <= b {
        s.subrange(a, b)
    } else {
        Seq::empty()
    }
}

/// The trimmed, non-empty lines of `s`, taken in order, scanning from `i`.
/// A line ends at a line feed or at the end of the input.
pub open spec fn clean_lines_from(s: Seq<u8>, i: int) -> Seq<Seq<u8>>
    decreases s.len() - i,
{
    if i < 0 || i >= s.len() {
        Seq::empty()
    } else {
        let j = find_from(s, 10, i);
        if j < i || j > s.len() {
            Seq::empty()
        } else {
            let t = trim_spec(s.subrange(i, j));
            let next = if j + 1 <= s.len() {
                j + 1
            } else {
                s.len() as int
            };
            let rest = clean_lines_from(s, next);
            if t.len() == 0 {
                rest
            } else {
                seq![t] + rest
            }
        }
    }
}

/// Index of the first entry at or after `i` that contains `pkg`,
/// or -1 when there is none.
pub open spec fn first_hit_from(pkg: Seq<u8>, es: Seq<Seq<u8>>, i: int) -> int
    decreases es.len() - i,
{
    if i < 0 || i >= es.len() {
        -1
    } else if contains_seq(es[i], pkg) {
        i
    } else {
        first_hit_from(pkg, es, i + 1)
    }
}

pub proof fn lemma_first_hit_from_bounds(pkg: Seq<u8>, es: Seq<Seq<u8>>, i: int)
    requires
        0 <= i <= es.len(),
    ensures
        first_hit_from(pkg, es, i) == -1 || i <= first_hit_from(pkg, es, i) < es.len(),
        first_hit_from(pkg, es, i) >= 0 ==> contains_seq(es[first_hit_from(pkg, es, i)], pkg),
        first_hit_from(pkg, es, i) == -1 ==> forall|j: int|
            i <= j < es.len() ==> !contains_seq(es[j], pkg),
        forall|j: int|
            i <= j && (first_hit_from(pkg, es, i) == -1 || j < first_hit_from(pkg, es, i))
                && j < es.len() ==> !contains_seq(es[j], pkg),
    decreases es.len() - i,
{
    if i < es.len() && !contains_seq(es[i], pkg) {
        lemma_first_hit_from_bounds(pkg, es, i + 1);
    }
}

/// The base name of a path: everything after the last slash,
/// or the whole path when it holds no slash.
pub open spec fn last_slash_before(s: Seq<u8>, j: int) -> int
    decreases j,
{
    if j <= 0 || j > s.len() {
        -1
    } else if s[j - 1] == 47 {
        j - 1
    } else {
        last_slash_before(s, j - 1)
    }
}

pub open spec fn base_name_spec(s: Seq<u8>) -> Seq<u8> {
    s.subrange(last_slash_before(s, s.len() as int) + 1, s.len() as int)
}

pub proof fn lemma_last_slash_bounds(s: Seq<u8>, j: int)
    requires
        0 <= j <= s.len(),
    ensures
        -1 <= last_slash_before(s, j) < j,
        last_slash_before(s, j) >= 0 ==> s[last_slash_before(s, j)] == 47,
        forall|k: int| last_slash_before(s, j) < k < j ==> s[k] != 47,
    decreases j,
{
    if 0 < j && s[j - 1] != 47 {
        lemma_last_slash_bounds(s, j - 1);
    }
}

/// The views of a pushed sequence are the views plus the pushed view.
pub proof fn lemma_views_push(r: Seq<Vec<u8>>, t: Vec<u8>)
    ensures
        views_of(r.push(t)) =~= views_of(r) + seq![t@],
{
}

/// Appends the bytes of `s` to `v`.
pub fn extend_bytes(v: &mut Vec<u8>, s: &Vec<u8>)
    ensures
        final(v)@ == old(v)@ + s@,
{
    let mut k: usize = 0;
    while k < s.len()
        invariant
            k <= s.len(),
            v@ == old(v)@ + s@.subrange(0, k as int),
        decreases s.len() - k,
    {
        v.push(s[k]);
        proof {
            assert(s@.subrange(0, k + 1 as int) == s@.subrange(0, k as int).push(s@[k as int]));
        }
        k = k + 1;
    }
    proof {
        assert(s@.subrange(0, s@.len() as int) == s@);
    }
}

/// A fresh copy of the bytes of `v`.
pub fn dup(v: &Vec<u8>) -> (r: Vec<u8>)
    ensures
        r@ == v@,
{
    let mut r: Vec<u8> = Vec::new();
    extend_bytes(&mut r, v);
    proof {
        assert(Seq::<u8>::empty() + v@ == v@);
    }
    r
}

/// The bytes of `s` between `a` (inclusive) and `b` (exclusive).
pub fn copy_range(s: &Vec<u8>, a: usize, b: usize) -> (r: Vec<u8>)
    requires
        a <= b <= s@.len(),
    ensures
        r@ == s@.subrange(a as int, b as int),
{
    let mut r: Vec<u8> = Vec::new();
    let mut k: usize = a;
    while k < b
        invariant
            a <= k <= b <= s@.len(),
            r@ == s@.subrange(a as int, k as int),
        decreases b - k,
    {
        r.push(s[k]);
        proof {
            assert(s@.subrange(a as int, k + 1 as int)
                == s@.subrange(a as int, k as int).push(s@[k as int]));
        }
        k = k + 1;
    }
    r
}

/// True when the two byte vectors hold the same bytes.
pub fn eq_bytes(a: &Vec<u8>, b: &Vec<u8>) -> (r: bool)
    ensures
        r == (a@ == b@),
{
    if a.len() != b.len() {
        return false;
    }
    let mut k: usize = 0;
    while k < a.len()
        invariant
            k <= a.len(),
            a@.len() == b@.len(),
            forall|j: int| 0 <= j < k ==> a@[j] == b@[j],
        decreases a.len() - k,
    {
        if a[k] != b[k] {
            return false;
        }
        k = k + 1;
    }
    proof {
        assert(a@ =~= b@);
    }
    true
}

/// True when `nd` stands in `hay` at offset `i`.
fn matches_at(hay: &Vec<u8>, nd: &Vec<u8>, i: usize) -> (r: bool)
    requires
        i + nd@.len() <= hay@.len(),
    ensures
        r == match_at(hay@, nd@, i as int),
{
    let h = hay.len();
    let n = nd.len();
    let mut k: usize = 0;
    while k < n
        invariant
            k <= n,
            forall|j: int| 0 <= j < k ==> hay@[i + j] == nd@[j],
        decreases n - k,
    {
        if hay[i + k] != nd[k] {
            proof {
                assert(hay@.subrange(i as int, i + nd@.len() as int)[k as int] == hay@[i + k]);
            }
            return false;
        }
        k = k + 1;
    }
    proof {
        assert(hay@.subrange(i as int, i + nd@.len() as int) =~= nd@);
    }
    true
}

/// True when `nd` occurs in `hay` as a contiguous run.
pub fn contains_bytes(hay: &Vec<u8>, nd: &Vec<u8>) -> (r: bool)
    ensures
        r == contains_seq(hay@, nd@),
{
    let h = hay.len();
    let n = nd.len();
    if n > h {
        return false;
    }
    if n == 0 {
        proof {
            assert(hay@.subrange(0, 0) =~= nd@);
            assert(match_at(hay@, nd@, 0));
        }
        return true;
    }
    let mut i: usize = 0;
    while i <= h - n
        invariant
            i <= h - n + 1,
            forall|j: int| 0 <= j < i ==> !match_at(hay@, nd@, j),
        decreases h - n + 1 - i,
    {
        if matches_at(hay, nd, i) {
            return true;
        }
        i = i + 1;
    }
    false
}

/// True when `s` ends with `suffix`.
pub fn ends_with_bytes(s: &Vec<u8>, suffix: &Vec<u8>) -> (r: bool)
    ensures
        r == ends_with(s@, suffix@),
{
    if suffix.len() > s.len() {
        return false;
    }
    let r = matches_at(s, suffix, s.len() - suffix.len());
    proof {
        assert(s@.len() - suffix@.len() + suffix@.len() == s@.len());
    }
    r
}

/// `v` with leading and trailing whitespace removed.
pub fn trim(v: &Vec<u8>) -> (r: Vec<u8>)
    ensures
        r@ == trim_spec(v@),
{
    let mut a: usize = 0;
    while a < v.len() && byte_is_space(v[a])
        invariant
            a <= v@.len(),
            skip_space(v@, 0) == skip_space(v@, a as int),
        decreases v.len() - a,
    {
        a = a + 1;
    }
    proof {
        assert(skip_space(v@, 0) == a as int);
    }
    let mut b: usize = v.len();
    while b > a && byte_is_space(v[b - 1])
        invariant
            a <= b <= v@.len(),
            rskip_space(v@, v@.len() as int) == rskip_space(v@, b as int),
        decreases b,
    {
        b = b - 1;
    }
    if a >= b {
        proof {
            lemma_rskip_space_bounds(v@, b as int);
            assert(rskip_space(v@, v@.len() as int) <= a as int);
            if skip_space(v@, 0) <= rskip_space(v@, v@.len() as int) {
                assert(trim_spec(v@) =~= Seq::<u8>::empty());
            }
        }
        Vec::new()
    } else {
        proof {
            assert(rskip_space(v@, b as int) == b as int);
        }
        copy_range(v, a, b)
    }
}

pub fn byte_is_space(b: u8) -> (r: bool)
    ensures
        r == is_space(b),
{
    b == 9 || b == 10 || b == 11 || b == 12 || b == 13 || b == 32
}

/// Splits `v` at line feeds, trims each line, and keeps the non-empty ones
/// in order.
pub fn clean_lines(v: &Vec<u8>) -> (r: Vec<Vec<u8>>)
    ensures
        views_of(r@) == clean_lines_from(v@, 0),
{
    let mut r: Vec<Vec<u8>> = Vec::new();
    let mut i: usize = 0;
    while i < v.len()
        invariant
            i <= v@.len(),
            views_of(r@) + clean_lines_from(v@, i as int) == clean_lines_from(v@, 0),
        decreases v.len() - i,
    {
        let mut j: usize = i;
        while j < v.len() && v[j] != 10
            invariant
                i <= j <= v@.len(),
                find_from(v@, 10, i as int) == find_from(v@, 10, j as int),
            decreases v.len() - j,
        {
            j = j + 1;
        }
        proof {
            assert(find_from(v@, 10, i as int) == j as int);
        }
        let seg = copy_range(v, i, j);
        let t = trim(&seg);
        let ghost tt = trim_spec(v@.subrange(i as int, j as int));
        let ghost next = if j as int + 1 <= v@.len() {
            j as int + 1
        } else {
            v@.len() as int
        };
        proof {
            if tt.len() == 0 {
                assert(clean_lines_from(v@, i as int) == clean_lines_from(v@, next));
            } else {
                assert(clean_lines_from(v@, i as int) == seq![tt] + clean_lines_from(v@, next));
            }
        }
        if t.len() > 0 {
            let ghost old_r = r@;
            r.push(t);
            proof {
                assert(views_of(r@) =~= views_of(old_r) + seq![tt]);
                assert((views_of(old_r) + seq![tt]) + clean_lines_from(v@, next)
                    =~= views_of(old_r) + (seq![tt] + clean_lines_from(v@, next)));
            }
        }
        if j < v.len() {
            i = j + 1;
        } else {
            i = j;
        }
    }
    proof {
        assert(views_of(r@) + clean_lines_from(v@, i as int) =~= views_of(r@));
    }
    r
}

/// Index of the first entry of `es` that contains `pkg`.
pub fn first_hit(pkg: &Vec<u8>, es: &Vec<Vec<u8>>) -> (r: Option<usize>)
    ensures
        first_hit_from(pkg@, views_of(es@), 0) == -1 ==> r is None,
        first_hit_from(pkg@, views_of(es@), 0) >= 0 ==> (r matches Some(i) && i
            == first_hit_from(pkg@, views_of(es@), 0)),
{
    let mut i: usize = 0;
    while i < es.len()
        invariant
            i <= es@.len(),
            first_hit_from(pkg@, views_of(es@), 0) == first_hit_from(pkg@, views_of(es@), i as int),
        decreases es.len() - i,
    {
        if contains_bytes(&es[i], pkg) {
            proof {
                assert(views_of(es@)[i as int] == es@[i as int]@);
            }
            return Some(i);
        }
        proof {
            assert(views_of(es@)[i as int] == es@[i as int]@);
        }
        i = i + 1;
    }
    None
}

/// The base name of `v`: the bytes after the last slash.
pub fn base_name(v: &Vec<u8>) -> (r: Vec<u8>)
    ensures
        r@ == base_name_spec(v@),
{
    proof {
        lemma_last_slash_bounds(v@, v@.len() as int);
    }
    let mut b: usize = v.len();
    while b > 0 && v[b - 1] != 47
        invariant
            b <= v@.len(),
            last_slash_before(v@, v@.len() as int) == last_slash_before(v@, b as int),
        decreases b,
    {
        b = b - 1;
    }
    copy_range(v, b, v.len())
}

/// Index of the first entry of `names` equal to `target`.
pub fn find_name(names: &Vec<Vec<u8>>, target: &Vec<u8>) -> (r: Option<usize>)
    ensures
        r matches Some(i) ==> i < names@.len() && names@[i as int]@ == target@ && forall|j: int|
            0 <= j < i ==> names@[j]@ != target@,
        r is None ==> forall|j: int| 0 <= j < names@.len() ==> names@[j]@ != target@,
{
    let mut i: usize = 0;
    while i < names.len()
        invariant
            i <= names@.len(),
            forall|j: int| 0 <= j < i ==> names@[j]@ != target@,
        decreases names.len() - i,
    {
        if eq_bytes(&names[i], target) {
            return Some(i);
        }
        i = i + 1;
    }
    None
}

} // verus!
