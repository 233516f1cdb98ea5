//! Building the driver's modified parameter names.
//!
//! Range queries address a parameter through its name with an info suffix
//! appended (the increment, minimum or maximum of the plain name). The name
//! constants carry a nul terminator, so building the modified name means
//! sanitising the base name (any name must be valid UTF-8), trimming its
//! terminator and appending the suffix, which brings its own.

use vstd::prelude::*;

use crate::consts::XI_INVALID_ARG;

verus! {

/// Whether `b` is a UTF-8 continuation byte.
pub open spec fn spec_utf8_cont(b: u8) -> bool {
    0x80 <= b <= 0xbf
}

/// Whether `s` is valid UTF-8: every character in its shortest encoding, with
/// surrogates and code points beyond the last plane excluded.
pub open spec fn spec_valid_utf8(s: Seq<u8>) -> bool
    decreases s.len(),
{
    if s.len() == 0 {
        true
    } else {
        let b0 = s[0];
        if b0 < 0x80 {
            spec_valid_utf8(s.skip(1))
        } else if 0xc2 <= b0 <= 0xdf {
            s.len() >= 2 && spec_utf8_cont(s[1]) && spec_valid_utf8(s.skip(2))
        } else if b0 == 0xe0 {
            s.len() >= 3 && 0xa0 <= s[1] <= 0xbf && spec_utf8_cont(s[2]) && spec_valid_utf8(
                s.skip(3),
            )
        } else if b0 == 0xed {
            s.len() >= 3 && 0x80 <= s[1] <= 0x9f && spec_utf8_cont(s[2]) && spec_valid_utf8(
                s.skip(3),
            )
        } else if 0xe1 <= b0 <= 0xef {
            s.len() >= 3 && spec_utf8_cont(s[1]) && spec_utf8_cont(s[2]) && spec_valid_utf8(
                s.skip(3),
            )
        } else if b0 == 0xf0 {
            s.len() >= 4 && 0x90 <= s[1] <= 0xbf && spec_utf8_cont(s[2]) && spec_utf8_cont(s[3])
                && spec_valid_utf8(s.skip(4))
        } else if 0xf1 <= b0 <= 0xf3 {
            s.len() >= 4 && spec_utf8_cont(s[1]) && spec_utf8_cont(s[2]) && spec_utf8_cont(s[3])
                && spec_valid_utf8(s.skip(4))
        } else if b0 == 0xf4 {
            s.len() >= 4 && 0x80 <= s[1] <= 0x8f && spec_utf8_cont(s[2]) && spec_utf8_cont(s[3])
                && spec_valid_utf8(s.skip(4))
        } else {
            false
        }
    }
}

/// Decide UTF-8 validity of a byte slice.
pub fn is_valid_utf8(s: &[u8]) -> (r: bool)
    ensures
        r == spec_valid_utf8(s@),
{
    let n = s.len();
    proof {
        assert(s@.skip(0) =~= s@);
    }
    let mut i: usize = 0;
    while i < n
        invariant
            i <= n == s@.len(),
            spec_valid_utf8(s@) == spec_valid_utf8(s@.skip(i as int)),
        decreases n - i,
    {
        let ghost t = s@.skip(i as int);
        proof {
            assert(t.len() == n - i);
            assert(t[0] == s@[i as int]);
        }
        let b0 = s[i];
        if b0 < 0x80 {
            proof {
                assert(t.skip(1) =~= s@.skip(i + 1));
            }
            i = i + 1;
        } else if 0xc2 <= b0 && b0 <= 0xdf {
            if n - i < 2 || !(0x80 <= s[i + 1] && s[i + 1] <= 0xbf) {
                return false;
            }
            proof {
                assert(t[1] == s@[i + 1]);
                assert(t.skip(2) =~= s@.skip(i + 2));
            }
            i = i + 2;
        } else if b0 == 0xe0 || b0 == 0xed || (0xe1 <= b0 && b0 <= 0xef) {
            if n - i < 3 {
                return false;
            }
            let b1 = s[i + 1];
            let b2 = s[i + 2];
            let b1_ok = if b0 == 0xe0 {
                0xa0 <= b1 && b1 <= 0xbf
            } else if b0 == 0xed {
                0x80 <= b1 && b1 <= 0x9f
            } else {
                0x80 <= b1 && b1 <= 0xbf
            };
            if !(b1_ok && 0x80 <= b2 && b2 <= 0xbf) {
                return false;
            }
            proof {
                assert(t[1] == s@[i + 1]);
                assert(t[2] == s@[i + 2]);
                assert(t.skip(3) =~= s@.skip(i + 3));
            }
            i = i + 3;
        } else if 0xf0 <= b0 && b0 <= 0xf4 {
            if n - i < 4 {
                return false;
            }
            let b1 = s[i + 1];
            let b2 = s[i + 2];
            let b3 = s[i + 3];
            let b1_ok = if b0 == 0xf0 {
                0x90 <= b1 && b1 <= 0xbf
            } else if b0 == 0xf4 {
                0x80 <= b1 && b1 <= 0x8f
            } else {
                0x80 <= b1 && b1 <= 0xbf
            };
            if !(b1_ok && 0x80 <= b2 && b2 <= 0xbf && 0x80 <= b3 && b3 <= 0xbf) {
                return false;
            }
            proof {
                assert(t[1] == s@[i + 1]);
                assert(t[2] == s@[i + 2]);
                assert(t[3] == s@[i + 3]);
                assert(t.skip(4) =~= s@.skip(i + 4));
            }
            i = i + 4;
        } else {
            return false;
        }
    }
    proof {
        assert(s@.skip(n as int) =~= Seq::<u8>::empty());
    }
    true
}

/// `s` with nul bytes removed from both ends.
pub open spec fn spec_trim_nuls(s: Seq<u8>) -> Seq<u8>
    decreases s.len(),
{
    if s.len() == 0 {
        s
    } else if s[0] == 0 {
        spec_trim_nuls(s.subrange(1, s.len() as int))
    } else if s[s.len() - 1] == 0 {
        spec_trim_nuls(s.subrange(0, s.len() - 1))
    } else {
        s
    }
}

/// Trimming equals taking the subrange `[a, b)` whenever everything outside
/// `[a, b)` is nul and the range's own ends are not.
proof fn lemma_trim_nuls_range(s: Seq<u8>, a: int, b: int)
    requires
        0 <= a <= b <= s.len(),
        forall|i: int| 0 <= i < a ==> s[i] == 0,
        forall|i: int| b <= i < s.len() ==> s[i] == 0,
        a < b ==> s[a] != 0,
        a < b ==> s[b - 1] != 0,
    ensures
        spec_trim_nuls(s) == s.subrange(a, b),
    decreases s.len(),
{
    if s.len() == 0 {
        assert(s.subrange(a, b) =~= s);
    } else if s[0] == 0 {
        let t = s.subrange(1, s.len() as int);
        if a == b {
            lemma_trim_nuls_range(t, 0, 0);
            assert(t.subrange(0, 0) =~= s.subrange(a, b));
        } else {
            assert(a >= 1);
            lemma_trim_nuls_range(t, a - 1, b - 1);
            assert(t.subrange(a - 1, b - 1) =~= s.subrange(a, b));
        }
    } else if s[s.len() - 1] == 0 {
        let t = s.subrange(0, s.len() - 1);
        if a == b {
            lemma_trim_nuls_range(t, 0, 0);
            assert(t.subrange(0, 0) =~= s.subrange(a, b));
        } else {
            assert(b <= s.len() - 1);
            lemma_trim_nuls_range(t, a, b);
            assert(t.subrange(a, b) =~= s.subrange(a, b));
        }
    } else {
        assert(a == 0 && b == s.len());
        assert(s.subrange(a, b) =~= s);
    }
}

/// Build the modified parameter name for a range query: the name with its nul
/// terminator trimmed away, followed by the modifier suffix (which carries its
/// own terminator). A name that is not valid UTF-8 is rejected as an invalid
/// argument.
pub fn param_suffix(param: &[u8], info_modifier: &[u8]) -> (r: Result<Vec<u8>, i32>)
    requires
        spec_valid_utf8(info_modifier@),
    ensures
        spec_valid_utf8(param@) ==> (r matches Ok(v) && v@ == spec_trim_nuls(param@)
            + info_modifier@),
        !spec_valid_utf8(param@) ==> r == Err::<Vec<u8>, i32>(XI_INVALID_ARG),
{
    if !is_valid_utf8(param) {
        return Err(XI_INVALID_ARG);
    }
    let n = param.len();
    let mut start: usize = 0;
    while start < n && param[start] == 0
        invariant
            start <= n == param@.len(),
            forall|j: int| 0 <= j < start ==> param@[j] == 0,
        decreases n - start,
    {
        start = start + 1;
    }
    let mut end: usize = n;
    while end > start && param[end - 1] == 0
        invariant
            start <= end <= n == param@.len(),
            forall|j: int| end <= j < n ==> param@[j] == 0,
        decreases end,
    {
        end = end - 1;
    }
    proof {
        if start < end {
            assert(param@[start as int] != 0);
            assert(param@[end - 1] != 0);
        } else {
            assert(forall|j: int| 0 <= j < param@.len() ==> param@[j] == 0);
            lemma_trim_nuls_range(param@, 0, 0);
            assert(param@.subrange(0, 0) =~= param@.subrange(start as int, start as int));
        }
        lemma_trim_nuls_range(param@, start as int, end as int);
    }
    let mut out: Vec<u8> = Vec::new();
    let mut k: usize = start;
    while k < end
        invariant
            start <= k <= end <= param@.len(),
            out@ == param@.subrange(start as int, k as int),
        decreases end - k,
    {
        out.push(param[k]);
        proof {
            assert(out@ =~= param@.subrange(start as int, k + 1));
        }
        k = k + 1;
    }
    let m_len = info_modifier.len();
    let mut m: usize = 0;
    while m < m_len
        invariant
            m <= m_len == info_modifier@.len(),
            out@ == param@.subrange(start as int, end as int) + info_modifier@.subrange(
                0,
                m as int,
            ),
        decreases m_len - m,
    {
        out.push(info_modifier[m]);
        proof {
            assert(out@ =~= param@.subrange(start as int, end as int) + info_modifier@.subrange(
                0,
                m + 1,
            ));
        }
        m = m + 1;
    }
    proof {
        assert(out@ =~= spec_trim_nuls(param@) + info_modifier@);
    }
    Ok(out)
}

} // verus!
