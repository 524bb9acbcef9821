//! The deadline that bounds the retries of one full-item read.
use vstd::prelude::*;
use vstd::string::StrSliceExecFns;

verus! {

/// Seconds that retries of one read may take when nothing else is configured.
pub const DEFAULT_RETRY_TIMEOUT_SECONDS: u64 = 10;

/// The retry deadline of full-item reads, in seconds.
#[derive(Debug, Clone, Copy, PartialEq, Eq, Structural)]
pub struct BackoffStrategy {
    pub time_limit_seconds: u64,
}

/// The text consists of decimal digits only.
pub open spec fn all_digits(s: Seq<char>) -> bool {
    forall|i: int| 0 <= i < s.len() ==> '0' <= #[trigger] s[i] && s[i] <= '9'
}

/// The number that a text of decimal digits writes.
pub open spec fn digits_value(s: Seq<char>) -> int
    decreases s.len(),
{
    if s.len() == 0 {
        0
    } else {
        digits_value(s.drop_last()) * 10 + (s.last() as int - '0' as int)
    }
}

/// What reading a text as an unsigned 64-bit number gives: an optional `+`
/// and one or more decimal digits whose value fits.
pub open spec fn parsed_u64(s: Seq<char>) -> Option<u64> {
    let d = if s.len() > 0 && s[0] == '+' {
        s.subrange(1, s.len() as int)
    } else {
        s
    };
    if d.len() > 0 && all_digits(d) && digits_value(d) <= u64::MAX {
        Some(digits_value(d) as u64)
    } else {
        None
    }
}

proof fn lemma_digits_prefix(s: Seq<char>, i: int)
    requires
        0 <= i <= s.len(),
        all_digits(s),
    ensures
        0 <= digits_value(s.subrange(0, i)) <= digits_value(s),
    decreases s.len() - i,
{
    if i < s.len() {
        lemma_digits_prefix(s, i + 1);
        let p = s.subrange(0, i + 1);
        assert(p.drop_last() =~= s.subrange(0, i));
        assert('0' <= s[i] && s[i] <= '9');
        lemma_digits_nonneg(s.subrange(0, i));
    } else {
        assert(s.subrange(0, i) =~= s);
        lemma_digits_nonneg(s);
    }
}

proof fn lemma_digits_nonneg(s: Seq<char>)
    requires
        all_digits(s),
    ensures
        digits_value(s) >= 0,
    decreases s.len(),
{
    if s.len() > 0 {
        let p = s.drop_last();
        assert(all_digits(p)) by {
            assert forall|i: int| 0 <= i < p.len() implies '0' <= #[trigger] p[i] && p[i] <= '9' by {
                assert(p[i] == s[i]);
            }
        }
        lemma_digits_nonneg(p);
        assert('0' <= s[s.len() - 1]);
    }
}

/// Reads a text as an unsigned 64-bit number, as `str::parse::<u64>` does:
/// an optional `+`, then one or more decimal digits whose value fits.
fn parse_u64(s: &str) -> (r: Option<u64>)
    ensures
        r == parsed_u64(s@),
{
    let n = s.unicode_len();
    let start: usize = if n > 0 && s.get_char(0) == '+' { 1 } else { 0 };
    let ghost d = if s@.len() > 0 && s@[0] == '+' { s@.subrange(1, s@.len() as int) } else { s@ };
    proof {
        if start == 0 {
            assert(d =~= s@.subrange(0, s@.len() as int));
        }
    }
    if start >= n {
        return None;
    }
    let mut value: u64 = 0;
    let mut i: usize = start;
    while i < n
        invariant
            n == s@.len(),
            start <= i <= n,
            d == s@.subrange(start as int, n as int),
            d == (if s@.len() > 0 && s@[0] == '+' {
                s@.subrange(1, s@.len() as int)
            } else {
                s@
            }),
            all_digits(d.subrange(0, i - start)),
            value as int == digits_value(d.subrange(0, i - start)),
        decreases n - i,
    {
        let c = s.get_char(i);
        let ghost pre = d.subrange(0, i - start);
        let ghost post = d.subrange(0, i - start + 1);
        proof {
            assert(post.drop_last() =~= pre);
            assert(post.last() == c);
        }
        if !('0' <= c && c <= '9') {
            proof {
                assert(d[i - start] == c);
                assert(!all_digits(d));
            }
            return None;
        }
        let digit = (c as u32 - '0' as u32) as u64;
        if value > (u64::MAX - digit) / 10 {
            proof {
                assert(all_digits(post)) by {
                    assert forall|q: int| 0 <= q < post.len() implies '0' <= #[trigger] post[q] && post[q] <= '9' by {
                        if q < pre.len() {
                            assert(post[q] == pre[q]);
                        }
                    }
                }
                assert(digits_value(post) > u64::MAX) by (nonlinear_arith)
                    requires
                        value > (u64::MAX - digit) / 10,
                        digit <= 9,
                        digits_value(post) == value * 10 + digit,
                ;
                if all_digits(d) {
                    assert(post =~= d.subrange(0, i - start + 1));
                    lemma_digits_prefix(d, i - start + 1);
                }
            }
            return None;
        }
        value = value * 10 + digit;
        proof {
            assert(all_digits(post)) by {
                assert forall|q: int| 0 <= q < post.len() implies '0' <= #[trigger] post[q] && post[q] <= '9' by {
                    if q < pre.len() {
                        assert(post[q] == pre[q]);
                    }
                }
            }
        }
        i = i + 1;
    }
    proof {
        assert(d.subrange(0, n - start) =~= d);
    }
    Some(value)
}

impl BackoffStrategy {
    /// A strategy with the given deadline.
    pub fn new(time_limit_seconds: u64) -> (r: Self)
        ensures
            r.time_limit_seconds == time_limit_seconds,
    {
        BackoffStrategy { time_limit_seconds }
    }

    /// The strategy for an optional configured deadline: the setting when it
    /// reads as a number, the default otherwise.
    pub fn from_setting(setting: Option<&str>) -> (r: Self)
        ensures
            r.time_limit_seconds == match setting {
                Some(v) => match parsed_u64(v@) {
                    Some(n) => n,
                    None => DEFAULT_RETRY_TIMEOUT_SECONDS,
                },
                None => DEFAULT_RETRY_TIMEOUT_SECONDS,
            },
    {
        let seconds = match setting {
            Some(v) => match parse_u64(v) {
                Some(n) => n,
                None => DEFAULT_RETRY_TIMEOUT_SECONDS,
            },
            None => DEFAULT_RETRY_TIMEOUT_SECONDS,
        };
        BackoffStrategy { time_limit_seconds: seconds }
    }
}

impl Default for BackoffStrategy {
    fn default() -> (r: Self)
        ensures
            r.time_limit_seconds == DEFAULT_RETRY_TIMEOUT_SECONDS,
    {
        BackoffStrategy { time_limit_seconds: DEFAULT_RETRY_TIMEOUT_SECONDS }
    }
}

} // verus!
