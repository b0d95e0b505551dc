//! Splitting a command line into tokens.
//!
//! A token is either a maximal run of bytes that are neither whitespace
//! nor quotes, or the contents of a single- or double-quoted span, with
//! the quotes stripped. A quote with no closing mate is dropped and the
//! scan goes on after it.

use vstd::prelude::*;

use crate::bytes::byte_is_space;
use crate::bytes::copy_range;
use crate::bytes::find_from;
use crate::bytes::is_quote;
use crate::bytes::is_space;
use crate::bytes::lemma_views_push;
use crate::bytes::views_of;

verus! {

/// End of the bare token starting at `i`: the first index at or after
/// `i` holding whitespace or a quote, or the length of `s`.
pub open spec fn bare_end(s: Seq<u8>, i: int) -> int
    decreases s.len() - i,
{
    if i < 0 || i >= s.len() {
        s.len() as int
    } else if is_space(s[i]) || is_quote(s[i]) {
        i
    } else {
        bare_end(s, i + 1)
    }
}

/// The tokens of `s`, scanning from `i`.
pub open spec fn tokens_from(s: Seq<u8>, i: int) -> Seq<Seq<u8>>
    decreases s.len() - i,
{
    if i < 0 || i >= s.len() {
        Seq::empty()
    } else if is_space(s[i]) {
        tokens_from(s, i + 1)
    } else if is_quote(s[i]) {
        let j = find_from(s, s[i], i + 1);
        if j < i + 1 || j >= s.len() {
            tokens_from(s, i + 1)
        } else {
            seq![s.subrange(i + 1, j)] + tokens_from(s, j + 1)
        }
    } else {
        let k = bare_end(s, i);
        if k <= i || k > s.len() {
            tokens_from(s, i + 1)
        } else {
            seq![s.subrange(i, k)] + tokens_from(s, k)
        }
    }
}

/// The tokens of the whole of `s`.
pub open spec fn tokens_of(s: Seq<u8>) -> Seq<Seq<u8>> {
    tokens_from(s, 0)
}

/// Splits `line` into its tokens, in order.
pub fn tokenize(line: &Vec<u8>) -> (r: Vec<Vec<u8>>)
    ensures
        views_of(r@) == tokens_of(line@),
{
    let n = line.len();
    let mut r: Vec<Vec<u8>> = Vec::new();
    let mut i: usize = 0;
    while i < n
        invariant
            i <= n,
            views_of(r@) + tokens_from(line@, i as int) == tokens_of(line@),
        decreases n - i,
    {
        let c = line[i];
        if byte_is_space(c) {
            i = i + 1;
        } else if c == 34 || c == 39 {
            let mut j: usize = i + 1;
            while j < n && line[j] != c
                invariant
                    i + 1 <= j <= n,
                    find_from(line@, c, i as int + 1) == find_from(line@, c, j as int),
                decreases n - j,
            {
                j = j + 1;
            }
            proof {
                assert(find_from(line@, c, i as int + 1) == j as int);
            }
            if j >= n {
                i = i + 1;
            } else {
                let t = copy_range(line, i + 1, j);
                let ghost old_r = r@;
                r.push(t);
                proof {
                    lemma_views_push(old_r, t);
                    assert((views_of(old_r) + seq![t@]) + tokens_from(line@, j as int + 1)
                        =~= views_of(old_r) + (seq![t@] + tokens_from(line@, j as int + 1)));
                }
                i = j + 1;
            }
        } else {
            let mut k: usize = i + 1;
            while k < n && !(byte_is_space(line[k]) || line[k] == 34 || line[k] == 39)
                invariant
                    i + 1 <= k <= n,
                    bare_end(line@, i as int) == bare_end(line@, k as int),
                decreases n - k,
            {
                k = k + 1;
            }
            proof {
                assert(bare_end(line@, i as int) == k as int);
            }
            let t = copy_range(line, i, k);
            let ghost old_r = r@;
            r.push(t);
            proof {
                lemma_views_push(old_r, t);
                assert((views_of(old_r) + seq![t@]) + tokens_from(line@, k as int)
                    =~= views_of(old_r) + (seq![t@] + tokens_from(line@, k as int)));
            }
            i = k;
        }
    }
    proof {
        assert(views_of(r@) + tokens_from(line@, i as int) =~= views_of(r@));
    }
    r
}

} // verus!
