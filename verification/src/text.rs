//! Unicode whitespace and trimming of user input.
use vstd::prelude::*;

verus! {

/// The Unicode `White_Space` property: the code points that `char::is_whitespace` accepts.
pub open spec fn is_white_space_char(c: char) -> bool {
    let u = c as u32;
    ||| 0x09 <= u <= 0x0D
    ||| u == 0x20
    ||| u == 0x85
    ||| u == 0xA0
    ||| u == 0x1680
    ||| 0x2000 <= u <= 0x200A
    ||| u == 0x2028
    ||| u == 0x2029
    ||| u == 0x202F
    ||| u == 0x205F
    ||| u == 0x3000
}

/// `s` with its leading whitespace removed.
pub open spec fn trim_start(s: Seq<char>) -> Seq<char>
    decreases s.len(),
{
    if s.len() > 0 && is_white_space_char(s[0]) {
        trim_start(s.drop_first())
    } else {
        s
    }
}

/// `s` with its trailing whitespace removed.
pub open spec fn trim_end(s: Seq<char>) -> Seq<char>
    decreases s.len(),
{
    if s.len() > 0 && is_white_space_char(s.last()) {
        trim_end(s.drop_last())
    } else {
        s
    }
}

/// `s` with whitespace removed from both ends.
pub open spec fn trimmed(s: Seq<char>) -> Seq<char> {
    trim_end(trim_start(s))
}

/// True when `s` holds nothing but whitespace (the empty text included).
pub open spec fn is_blank(s: Seq<char>) -> bool {
    forall|k: int| 0 <= k < s.len() ==> is_white_space_char(#[trigger] s[k])
}

/// Whether `c` is Unicode whitespace, as `char::is_whitespace` decides it.
pub fn is_white_space(c: char) -> (b: bool)
    ensures
        b == is_white_space_char(c),
{
    let u = c as u32;
    (0x09 <= u && u <= 0x0D) || u == 0x20 || u == 0x85 || u == 0xA0 || u == 0x1680 || (0x2000
        <= u && u <= 0x200A) || u == 0x2028 || u == 0x2029 || u == 0x202F || u == 0x205F || u
        == 0x3000
}

proof fn lemma_trim_start_step(s: Seq<char>, i: int)
    requires
        0 <= i < s.len(),
        is_white_space_char(s[i]),
    ensures
        trim_start(s.subrange(i, s.len() as int)) == trim_start(s.subrange(i + 1, s.len() as int)),
{
    assert(s.subrange(i, s.len() as int).drop_first() =~= s.subrange(i + 1, s.len() as int));
}

proof fn lemma_trim_end_step(s: Seq<char>, j: int)
    requires
        0 < j <= s.len(),
        is_white_space_char(s[j - 1]),
    ensures
        trim_end(s.subrange(0, j)) == trim_end(s.subrange(0, j - 1)),
{
    assert(s.subrange(0, j).drop_last() =~= s.subrange(0, j - 1));
}

/// Removes leading and trailing whitespace, as `str::trim` does.
pub fn trim_whitespace(s: &str) -> (r: &str)
    ensures
        r@ == trimmed(s@),
{
    let n = s.unicode_len();
    let ghost full = s@;
    let mut i: usize = 0;
    assert(full.subrange(0, n as int) =~= full);
    while i < n && is_white_space(s.get_char(i))
        invariant
            n == full.len(),
            full == s@,
            i <= n,
            trim_start(full) == trim_start(full.subrange(i as int, n as int)),
        decreases n - i,
    {
        proof {
            lemma_trim_start_step(full, i as int);
        }
        i = i + 1;
    }
    let ghost rest = full.subrange(i as int, n as int);
    assert(trim_start(full) == rest) by {
        if i < n {
            assert(rest[0] == full[i as int]);
        } else {
            assert(rest.len() == 0);
        }
    }
    let mut j: usize = n;
    assert(rest.subrange(0, n - i) =~= rest);
    while j > i && is_white_space(s.get_char(j - 1))
        invariant
            n == full.len(),
            full == s@,
            i <= j <= n,
            rest == full.subrange(i as int, n as int),
            trim_end(rest) == trim_end(rest.subrange(0, j - i)),
        decreases j - i,
    {
        proof {
            assert(rest[j - i - 1] == full[j - 1]);
            lemma_trim_end_step(rest, j - i);
        }
        j = j - 1;
    }
    proof {
        let kept = rest.subrange(0, j - i);
        if j > i {
            assert(kept.last() == full[j - 1]);
        }
        assert(kept =~= full.subrange(i as int, j as int));
    }
    s.substring_char(i, j)
}


/// The leading whitespace that `trim_start` drops is a prefix of `s`; what remains
/// starts with a character that is not whitespace, or is empty.
proof fn lemma_trim_start_shape(s: Seq<char>) -> (k: int)
    ensures
        0 <= k <= s.len(),
        trim_start(s) == s.subrange(k, s.len() as int),
        forall|i: int| 0 <= i < k ==> is_white_space_char(#[trigger] s[i]),
        k < s.len() ==> !is_white_space_char(s[k]),
    decreases s.len(),
{
    if s.len() > 0 && is_white_space_char(s[0]) {
        let tail = s.drop_first();
        let k1 = lemma_trim_start_shape(tail);
        assert(tail.subrange(k1, tail.len() as int) =~= s.subrange(k1 + 1, s.len() as int));
        assert forall|i: int| 0 <= i < k1 + 1 implies is_white_space_char(#[trigger] s[i]) by {
            if i > 0 {
                assert(s[i] == tail[i - 1]);
            }
        }
        if k1 + 1 < s.len() {
            assert(s[k1 + 1] == tail[k1]);
        }
        k1 + 1
    } else {
        assert(s.subrange(0, s.len() as int) =~= s);
        0
    }
}

/// The trailing whitespace that `trim_end` drops is a suffix of `s`; what remains
/// ends with a character that is not whitespace, or is empty.
proof fn lemma_trim_end_shape(s: Seq<char>) -> (m: int)
    ensures
        0 <= m <= s.len(),
        trim_end(s) == s.subrange(0, m),
        forall|i: int| m <= i < s.len() ==> is_white_space_char(#[trigger] s[i]),
        m > 0 ==> !is_white_space_char(s[m - 1]),
    decreases s.len(),
{
    if s.len() > 0 && is_white_space_char(s.last()) {
        let init = s.drop_last();
        let m1 = lemma_trim_end_shape(init);
        assert(init.subrange(0, m1) =~= s.subrange(0, m1));
        assert forall|i: int| m1 <= i < s.len() implies is_white_space_char(#[trigger] s[i]) by {
            if i < s.len() - 1 {
                assert(s[i] == init[i]);
            }
        }
        if m1 > 0 {
            assert(s[m1 - 1] == init[m1 - 1]);
        }
        m1
    } else {
        assert(s.subrange(0, s.len() as int) =~= s);
        s.len() as int
    }
}

/// Trimming keeps one contiguous part of the text: everything cut off on either side is
/// whitespace, and what is kept neither starts nor ends with whitespace.
pub proof fn law_trimmed_is_inner_part(s: Seq<char>)
    ensures
        exists|a: int, b: int|
            {
                &&& 0 <= a <= b <= s.len()
                &&& trimmed(s) == s.subrange(a, b)
                &&& forall|i: int| 0 <= i < a ==> is_white_space_char(#[trigger] s[i])
                &&& forall|i: int| b <= i < s.len() ==> is_white_space_char(#[trigger] s[i])
                &&& a < b ==> !is_white_space_char(s[a]) && !is_white_space_char(s[b - 1])
            },
{
    trimmed_bounds(s);
}

proof fn trimmed_bounds(s: Seq<char>) -> (ab: (int, int))
    ensures
        0 <= ab.0 <= ab.1 <= s.len(),
        trimmed(s) == s.subrange(ab.0, ab.1),
        forall|i: int| 0 <= i < ab.0 ==> is_white_space_char(#[trigger] s[i]),
        forall|i: int| ab.1 <= i < s.len() ==> is_white_space_char(#[trigger] s[i]),
        ab.0 < ab.1 ==> !is_white_space_char(s[ab.0]) && !is_white_space_char(s[ab.1 - 1]),
{
    let a = lemma_trim_start_shape(s);
    let t = s.subrange(a, s.len() as int);
    let m = lemma_trim_end_shape(t);
    let b = a + m;
    assert(t.subrange(0, m) =~= s.subrange(a, b));
    assert forall|i: int| b <= i < s.len() implies is_white_space_char(#[trigger] s[i]) by {
        assert(s[i] == t[i - a]);
    }
    if a < b {
        assert(s[a] == t[0]);
        assert(s[b - 1] == t[m - 1]);
    }
    (a, b)
}

/// Trimming twice gives what trimming once gives.
pub proof fn law_trim_idempotent(s: Seq<char>)
    ensures
        trimmed(trimmed(s)) == trimmed(s),
{
    let (a, b) = trimmed_bounds(s);
    let t = trimmed(s);
    if t.len() == 0 {
        assert(trim_start(t) == t);
        assert(trim_end(t) == t);
    } else {
        assert(t[0] == s[a]);
        assert(t.last() == s[b - 1]);
        assert(trim_start(t) == t);
        assert(trim_end(t) == t);
    }
}

/// Trimming leaves nothing exactly when the text is all whitespace.
pub proof fn law_trimmed_empty_iff_blank(s: Seq<char>)
    ensures
        trimmed(s).len() == 0 <==> is_blank(s),
{
    let (a, b) = trimmed_bounds(s);
    if a < b {
        assert(!is_white_space_char(s[a]));
    } else {
        assert forall|k: int| 0 <= k < s.len() implies is_white_space_char(#[trigger] s[k]) by {
            if k < a {
            } else {
                assert(b <= k);
            }
        }
    }
}

} // verus!
