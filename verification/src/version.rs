//! Parsing the browser's version output: the major version is the leading
//! digit run of the first dotted numeric token.

use vstd::prelude::*;

verus! {

/// Whether `c` is an ASCII decimal digit.
pub open spec fn is_digit(c: char) -> bool {
    48 <= c as u32 && c as u32 <= 57
}

/// Length of the digit run starting at `i`.
pub open spec fn digit_run_len(s: Seq<char>, i: int) -> int
    decreases s.len() - i,
    when 0 <= i <= s.len()
{
    if i < s.len() && is_digit(s[i]) {
        1 + digit_run_len(s, i + 1)
    } else {
        0
    }
}

/// Value of the `n` digits starting at `i`.
pub open spec fn run_value(s: Seq<char>, i: int, n: int) -> int
    decreases n,
{
    if n <= 0 {
        0
    } else {
        run_value(s, i, n - 1) * 10 + (s[i + n - 1] as u32 - 48)
    }
}

/// Whether a dotted numeric token starts at `i`: a maximal digit run
/// followed by a dot and another digit.
pub open spec fn token_at(s: Seq<char>, i: int) -> bool {
    0 <= i < s.len() && is_digit(s[i]) && (i == 0 || !is_digit(s[i - 1])) && {
        let n = digit_run_len(s, i);
        i + n < s.len() && s[i + n] as u32 == 46 && i + n + 1 < s.len() && is_digit(s[i + n + 1])
    }
}

/// Position of the first dotted numeric token at or after `from`.
pub open spec fn first_token_pos(s: Seq<char>, from: int) -> Option<int>
    decreases s.len() - from,
    when 0 <= from <= s.len()
{
    if from >= s.len() {
        None
    } else if token_at(s, from) {
        Some(from)
    } else {
        first_token_pos(s, from + 1)
    }
}

/// Major version named by a version output: the value of the leading digit
/// run of the first dotted numeric token, when it fits.
pub open spec fn parse_major(s: Seq<char>) -> Option<u32> {
    match first_token_pos(s, 0) {
        None => None,
        Some(i) => {
            let v = run_value(s, i, digit_run_len(s, i));
            if v > u32::MAX {
                None
            } else {
                Some(v as u32)
            }
        },
    }
}

/// A digit run's value never shrinks as it extends.
pub proof fn lemma_run_value_monotone(s: Seq<char>, i: int, m: int, n: int)
    requires
        0 <= m <= n,
        0 <= i,
        i + n <= s.len(),
        forall|k: int| i <= k < i + n ==> is_digit(#[trigger] s[k]),
    ensures
        run_value(s, i, m) <= run_value(s, i, n),
        run_value(s, i, n) >= 0,
    decreases n,
{
    if n > 0 {
        assert(is_digit(s[i + n - 1]));
        if m == n {
            lemma_run_value_monotone(s, i, n - 1, n - 1);
        } else {
            lemma_run_value_monotone(s, i, m, n - 1);
        }
    }
}

/// Positions without a token do not move the first token.
pub proof fn lemma_first_token_skip(s: Seq<char>, a: int, b: int)
    requires
        0 <= a <= b <= s.len(),
        forall|k: int| a <= k < b ==> !(#[trigger] token_at(s, k)),
    ensures
        first_token_pos(s, a) == first_token_pos(s, b),
    decreases b - a,
{
    if a < b {
        lemma_first_token_skip(s, a + 1, b);
    }
}

/// Whether the character is an ASCII decimal digit.
fn is_digit_exec(c: char) -> (r: bool)
    ensures
        r == is_digit(c),
{
    let u = c as u32;
    48 <= u && u <= 57
}

/// Parse the major version out of a version output, e.g. the first token
/// of the form `120.0.6099.109` yields `120`. `None` when no dotted
/// numeric token occurs or the major does not fit.
pub fn parse_major_version(s: &str) -> (r: Option<u32>)
    ensures
        r == parse_major(s@),
{
    let len = s.unicode_len();
    let mut i: usize = 0;
    while i < len
        invariant
            len == s@.len(),
            0 <= i <= len,
            first_token_pos(s@, 0) == first_token_pos(s@, i as int),
        decreases len - i,
    {
        let starts_run = is_digit_exec(s.get_char(i)) && (i == 0 || !is_digit_exec(
            s.get_char(i - 1),
        ));
        if !starts_run {
            proof {
                assert(!token_at(s@, i as int));
            }
            i += 1;
            continue ;
        }
        // A digit run starts here; find its end.
        let mut j: usize = i;
        let mut run_end = false;
        while !run_end
            invariant
                len == s@.len(),
                i <= j <= len,
                forall|k: int| i <= k < j ==> is_digit(#[trigger] s@[k]),
                digit_run_len(s@, i as int) == (j - i) + digit_run_len(s@, j as int),
                run_end ==> j == len || !is_digit(s@[j as int]),
            decreases len - j + (if run_end {
                0int
            } else {
                1int
            }),
        {
            if j < len {
                if is_digit_exec(s.get_char(j)) {
                    j += 1;
                } else {
                    run_end = true;
                }
            } else {
                run_end = true;
            }
        }
        proof {
            assert(digit_run_len(s@, j as int) == 0);
            assert(digit_run_len(s@, i as int) == j - i);
        }
        let dotted = j < len && s.get_char(j) as u32 == 46 && j + 1 < len && is_digit_exec(
            s.get_char(j + 1),
        );
        if dotted {
            proof {
                assert(token_at(s@, i as int));
                assert(first_token_pos(s@, i as int) == Some(i as int));
            }
            // Accumulate the leading run's value, giving up when it
            // cannot fit.
            let mut v: u64 = 0;
            let mut k: usize = i;
            while k < j
                invariant
                    len == s@.len(),
                    i <= k <= j <= len,
                    forall|m: int| i <= m < j ==> is_digit(#[trigger] s@[m]),
                    v == run_value(s@, i as int, k - i),
                    v <= u32::MAX,
                    first_token_pos(s@, 0) == Some(i as int),
                    digit_run_len(s@, i as int) == j - i,
                decreases j - k,
            {
                let d = s.get_char(k) as u32 - 48;
                let next: u64 = v * 10 + (d as u64);
                proof {
                    assert(next == run_value(s@, i as int, k - i + 1));
                }
                if next > 0xFFFFFFFF {
                    proof {
                        lemma_run_value_monotone(s@, i as int, k - i + 1, j - i);
                    }
                    return None;
                }
                v = next;
                k += 1;
            }
            proof {
                lemma_run_value_monotone(s@, i as int, j - i, j - i);
            }
            return Some(v as u32);
        } else {
            let next = if j < len {
                j + 1
            } else {
                j
            };
            proof {
                assert(!token_at(s@, i as int));
                assert forall|k: int| i < k < j implies !(#[trigger] token_at(s@, k)) by {
                    assert(is_digit(s@[k - 1]));
                }
                if (j as int) < s@.len() {
                    assert(!is_digit(s@[j as int]));
                    assert(!token_at(s@, j as int));
                }
                lemma_first_token_skip(s@, i as int, next as int);
            }
            i = next;
        }
    }
    proof {
        assert(first_token_pos(s@, len as int) is None);
    }
    None
}

} // verus!
