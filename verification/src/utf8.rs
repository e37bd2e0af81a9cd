//! Lengths and cut points of text counted in UTF-8 bytes.

use vstd::prelude::*;

verus! {

/// The number of bytes that `c` takes in UTF-8.
pub open spec fn width(c: char) -> nat {
    if (c as u32) < 0x80 {
        1
    } else if (c as u32) < 0x800 {
        2
    } else if (c as u32) < 0x10000 {
        3
    } else {
        4
    }
}

/// The number of bytes that `s` takes in UTF-8.
pub open spec fn byte_len(s: Seq<char>) -> nat
    decreases s.len(),
{
    if s.len() == 0 {
        0
    } else {
        byte_len(s.drop_last()) + width(s.last())
    }
}

/// How many characters of `s` begin before byte `b`.
pub open spec fn chars_before(s: Seq<char>, b: int) -> int
    decreases s.len(),
{
    if b <= 0 || s.len() == 0 {
        0
    } else {
        1 + chars_before(s.skip(1), b - width(s[0]))
    }
}

/// The longest end of `s` that takes no more than `limit` bytes.
pub open spec fn tail(s: Seq<char>, limit: nat) -> Seq<char>
    decreases s.len(),
{
    if byte_len(s) <= limit {
        s
    } else {
        tail(s.skip(1), limit)
    }
}

pub proof fn lemma_byte_len_take(s: Seq<char>, i: int, j: int)
    requires
        0 <= i <= j <= s.len(),
    ensures
        byte_len(s.take(i)) + (j - i) <= byte_len(s.take(j)),
    decreases j - i,
{
    if i < j {
        lemma_byte_len_take(s, i, j - 1);
        assert(s.take(j).drop_last() =~= s.take(j - 1));
    }
}

proof fn lemma_byte_len_one(c: char)
    ensures
        byte_len(seq![c]) == width(c),
{
    reveal_with_fuel(byte_len, 2);
}

pub proof fn lemma_byte_len_split(s: Seq<char>, k: int)
    requires
        0 <= k <= s.len(),
    ensures
        byte_len(s) == byte_len(s.take(k)) + byte_len(s.skip(k)),
    decreases s.len() - k,
{
    if k == s.len() {
        assert(s.take(k) =~= s);
        assert(s.skip(k).len() == 0);
    } else {
        lemma_byte_len_split(s.drop_last(), k);
        assert(s.drop_last().take(k) =~= s.take(k));
        assert(s.drop_last().skip(k) =~= s.skip(k).drop_last());
        assert(s.skip(k).last() == s.last());
    }
}

/// The longest end begins where one more character would be too much.
pub proof fn lemma_tail(s: Seq<char>, limit: nat, k: int)
    requires
        0 <= k <= s.len(),
        byte_len(s.skip(k)) <= limit,
        k > 0 ==> byte_len(s.skip(k - 1)) > limit,
    ensures
        tail(s, limit) == s.skip(k),
    decreases k,
{
    if k == 0 {
        assert(s.skip(0) =~= s);
    } else {
        lemma_byte_len_split(s, k - 1);
        assert(s.skip(1).skip(k - 1) =~= s.skip(k));
        if k > 1 {
            assert(s.skip(1).skip(k - 2) =~= s.skip(k - 1));
        }
        lemma_tail(s.skip(1), limit, k - 1);
    }
}

/// One character more at the front adds its width.
pub proof fn lemma_skip_len(s: Seq<char>, k: int)
    requires
        0 < k <= s.len(),
    ensures
        byte_len(s.skip(k - 1)) == width(s[k - 1]) + byte_len(s.skip(k)),
{
    let t = s.skip(k - 1);
    lemma_byte_len_split(t, 1);
    assert(t.take(1) =~= seq![s[k - 1]]);
    assert(t.skip(1) =~= s.skip(k));
    lemma_byte_len_one(s[k - 1]);
}

/// Where the longest end of `s` begins that takes no more than `limit` bytes.
pub proof fn lemma_tail_start(s: Seq<char>, limit: nat) -> (k: int)
    ensures
        0 <= k <= s.len(),
        tail(s, limit) == s.skip(k),
        byte_len(s.skip(k)) <= limit,
        k > 0 ==> byte_len(s.skip(k - 1)) > limit,
    decreases s.len(),
{
    assert(s.skip(0) =~= s);
    if byte_len(s) <= limit {
        0
    } else {
        let k = lemma_tail_start(s.skip(1), limit);
        assert(s.skip(1).skip(k) =~= s.skip(k + 1));
        if k > 0 {
            assert(s.skip(1).skip(k - 1) =~= s.skip(k));
        }
        k + 1
    }
}

/// The number of bytes that `c` takes in UTF-8.
pub fn char_width(c: char) -> (r: usize)
    ensures
        r == width(c),
{
    let u: u32 = c as u32;
    if u < 0x80 {
        1
    } else if u < 0x800 {
        2
    } else if u < 0x10000 {
        3
    } else {
        4
    }
}

/// How many characters of `v` begin before byte `b`.
pub fn index_at_byte(v: &Vec<char>, b: usize) -> (r: usize)
    ensures
        r <= v@.len(),
        r == chars_before(v@, b as int),
{
    let n = v.len();
    let mut left: usize = b;
    let mut k: usize = 0;
    assert(v@.skip(0) =~= v@);
    while k < n && left > 0
        invariant
            n == v@.len(),
            k <= n,
            chars_before(v@, b as int) == k + chars_before(v@.skip(k as int), left as int),
        decreases n - k,
    {
        let w = char_width(v[k]);
        assert(v@.skip(k as int).skip(1) =~= v@.skip(k + 1));
        assert(w >= left ==> chars_before(v@.skip(k + 1), left - w) == 0);
        left = if w < left {
            left - w
        } else {
            0
        };
        k += 1;
    }
    k
}

/// Where the longest end of `v` begins that takes no more than `limit` bytes.
pub fn tail_start(v: &Vec<char>, limit: usize) -> (r: usize)
    ensures
        r <= v@.len(),
        tail(v@, limit as nat) == v@.skip(r as int),
        r == 0 <==> byte_len(v@) <= limit,
{
    let n = v.len();
    let mut k: usize = n;
    let mut size: usize = 0;
    assert(v@.skip(n as int).len() == 0);
    assert(v@.skip(0) =~= v@);
    while k > 0
        invariant
            n == v@.len(),
            k <= n,
            size <= limit,
            size == byte_len(v@.skip(k as int)),
        decreases k,
    {
        proof {
            lemma_skip_len(v@, k as int);
        }
        let w = char_width(v[k - 1]);
        if w > limit - size {
            proof {
                lemma_tail(v@, limit as nat, k as int);
                lemma_byte_len_split(v@, k - 1);
            }
            return k;
        }
        size += w;
        k -= 1;
    }
    assert(v@.skip(0) =~= v@);
    0
}

} // verus!
