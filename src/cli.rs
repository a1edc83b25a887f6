//! Command-line options and the parser of run durations.
use vstd::prelude::*;
use vstd::string::*;
use std::time::Duration;
use crate::error::RtopError;
use crate::text::chars_of;

verus! {

/// What to do instead of running the dashboard.
pub enum Commands {
    ShowConfig,
    InitConfig,
    Export { output: String, format: String },
}

/// The options of the program.
pub struct Cli {
    pub minimal: bool,
    pub no_color: bool,
    pub interval: Option<u64>,
    pub export: Option<String>,
    pub format: String,
    pub log: Option<String>,
    pub log_interval: u64,
    pub duration: Option<String>,
    pub config: Option<String>,
    pub generate_config: bool,
    pub verbose: u8,
    pub command: Option<Commands>,
}

/// Unicode white space, as `char::is_whitespace` defines it.
pub open spec fn is_white_space(c: char) -> bool {
    let u = c as u32;
    ||| 0x9 <= u <= 0xd
    ||| u == 0x20
    ||| u == 0x85
    ||| u == 0xa0
    ||| u == 0x1680
    ||| 0x2000 <= u <= 0x200a
    ||| u == 0x2028
    ||| u == 0x2029
    ||| u == 0x202f
    ||| u == 0x205f
    ||| u == 0x3000
}

/// `s` without its leading white space.
pub open spec fn trim_start(s: Seq<char>) -> Seq<char>
    decreases s.len(),
{
    if s.len() > 0 && is_white_space(s[0]) {
        trim_start(s.drop_first())
    } else {
        s
    }
}

/// `s` without its trailing white space.
pub open spec fn trim_end(s: Seq<char>) -> Seq<char>
    decreases s.len(),
{
    if s.len() > 0 && is_white_space(s.last()) {
        trim_end(s.drop_last())
    } else {
        s
    }
}

/// `s` without all trailing copies of `c`.
pub open spec fn strip_end(s: Seq<char>, c: char) -> Seq<char>
    decreases s.len(),
{
    if s.len() > 0 && s.last() == c {
        strip_end(s.drop_last(), c)
    } else {
        s
    }
}

pub open spec fn is_digit(c: char) -> bool {
    '0' <= c <= '9'
}

/// The number that the decimal digits `s` write.
pub open spec fn digits_value(s: Seq<char>) -> nat
    decreases s.len(),
{
    if s.len() == 0 {
        0
    } else {
        digits_value(s.drop_last()) * 10 + (s.last() as u32 - '0' as u32) as nat
    }
}

/// `s` without one leading `+`.
pub open spec fn number_body(s: Seq<char>) -> Seq<char> {
    if s.len() > 0 && s[0] == '+' {
        s.drop_first()
    } else {
        s
    }
}

pub open spec fn all_digits(s: Seq<char>) -> bool {
    forall|i: int| 0 <= i < s.len() ==> is_digit(#[trigger] s[i])
}

/// The `u64` that `s` writes in decimal, with an optional leading `+`, the
/// way `u64::from_str` reads it.
pub open spec fn parse_u64(s: Seq<char>) -> Option<nat> {
    let body = number_body(s);
    if body.len() > 0 && all_digits(body) && digits_value(body) <= u64::MAX {
        Some(digits_value(body))
    } else {
        None
    }
}

/// `n * factor` where `n` is what `s` writes, if that fits in a `u64`.
pub open spec fn scaled(s: Seq<char>, factor: nat) -> Option<nat> {
    match parse_u64(s) {
        Some(n) => if n * factor <= u64::MAX { Some(n * factor) } else { None },
        None => None,
    }
}

/// Seconds that a duration text writes: a count with the suffix `s`, `m` or
/// `h`, or seconds without a suffix; white space around it is ignored.
pub open spec fn duration_seconds(s: Seq<char>) -> Option<nat> {
    let t = trim_end(trim_start(s));
    if t.len() > 0 && t.last() == 's' {
        scaled(strip_end(t, 's'), 1)
    } else if t.len() > 0 && t.last() == 'm' {
        scaled(strip_end(t, 'm'), 60)
    } else if t.len() > 0 && t.last() == 'h' {
        scaled(strip_end(t, 'h'), 3600)
    } else {
        scaled(t, 1)
    }
}

pub uninterp spec fn duration_of_secs(secs: u64) -> Duration;

/// Relies on `Duration::from_secs`: the duration of `secs` whole seconds.
#[verifier::external_body]
fn duration_from_secs(secs: u64) -> (r: Duration)
    ensures
        r == duration_of_secs(secs),
{
    Duration::from_secs(secs)
}

/// Extending an all-digit text never lowers the number it writes.
proof fn lemma_digits_grow(s: Seq<char>, k: int)
    requires
        0 <= k <= s.len(),
        forall|i: int| 0 <= i < s.len() ==> is_digit(#[trigger] s[i]),
    ensures
        digits_value(s.subrange(0, k)) <= digits_value(s),
    decreases s.len(),
{
    if k < s.len() {
        assert(s.drop_last() =~= s.subrange(0, s.len() - 1));
        assert(s.drop_last().subrange(0, k) =~= s.subrange(0, k));
        lemma_digits_grow(s.drop_last(), k);
    } else {
        assert(s.subrange(0, k) =~= s);
    }
}

/// The number that `cs[from..to]` writes, if it is a `u64`.
pub(crate) fn parse_u64_in(cs: &Vec<char>, from: usize, to: usize) -> (r: Option<u64>)
    requires
        from <= to <= cs@.len(),
    ensures
        r matches Some(v) ==> parse_u64(cs@.subrange(from as int, to as int)) == Some(v as nat),
        r is None ==> parse_u64(cs@.subrange(from as int, to as int)) is None,
{
    let ghost s = cs@.subrange(from as int, to as int);
    let start: usize = if from < to && cs[from] == '+' { from + 1 } else { from };
    let ghost body = cs@.subrange(start as int, to as int);
    assert(body =~= number_body(s));
    if start == to {
        return None;
    }
    let mut acc: u64 = 0;
    let mut k: usize = start;
    while k < to
        invariant
            from <= start <= k <= to,
            to <= cs@.len(),
            body == cs@.subrange(start as int, to as int),
            s == cs@.subrange(from as int, to as int),
            body == number_body(s),
            forall|i: int| start <= i < k ==> is_digit(#[trigger] cs@[i]),
            acc as nat == digits_value(cs@.subrange(start as int, k as int)),
        decreases to - k,
    {
        let c = cs[k];
        if !('0' <= c && c <= '9') {
            assert(body[k - start] == c);
            assert(!is_digit(body[k - start]));
            assert(!all_digits(body));
            return None;
        }
        let d = (c as u32 - '0' as u32) as u64;
        let ghost prefix = cs@.subrange(start as int, k as int + 1);
        assert(prefix.drop_last() =~= cs@.subrange(start as int, k as int));
        assert(digits_value(prefix) == acc * 10 + d);
        if acc > (u64::MAX - d) / 10 {
            proof {
                assert(acc * 10 + d > u64::MAX) by (nonlinear_arith)
                    requires
                        acc > (u64::MAX - d) / 10,
                        d <= 9,
                ;
                if all_digits(body) {
                    assert(body.subrange(0, k - start + 1) =~= prefix);
                    lemma_digits_grow(body, k - start + 1);
                }
            }
            return None;
        }
        acc = acc * 10 + d;
        k = k + 1;
    }
    assert(cs@.subrange(start as int, to as int) =~= body);
    Some(acc)
}

/// Bounds of `cs[from..to]` without its leading and trailing white space.
pub(crate) fn trimmed_range(cs: &Vec<char>, from: usize, to: usize) -> (r: (usize, usize))
    requires
        from <= to <= cs@.len(),
    ensures
        from <= r.0 <= r.1 <= to,
        cs@.subrange(r.0 as int, r.1 as int) == trim_end(trim_start(cs@.subrange(from as int, to as int))),
{
    let ghost s = cs@.subrange(from as int, to as int);
    let mut lo: usize = from;
    while lo < to && is_white_space_char(cs[lo])
        invariant
            from <= lo <= to,
            to <= cs@.len(),
            s == cs@.subrange(from as int, to as int),
            trim_start(s) == trim_start(cs@.subrange(lo as int, to as int)),
        decreases to - lo,
    {
        assert(cs@.subrange(lo as int, to as int).drop_first() =~= cs@.subrange(lo as int + 1, to as int));
        lo = lo + 1;
    }
    let ghost ts = cs@.subrange(lo as int, to as int);
    assert(trim_start(s) == ts);
    let mut hi: usize = to;
    while hi > lo && is_white_space_char(cs[hi - 1])
        invariant
            from <= lo <= hi <= to,
            to <= cs@.len(),
            ts == cs@.subrange(lo as int, to as int),
            trim_end(ts) == trim_end(cs@.subrange(lo as int, hi as int)),
        decreases hi,
    {
        assert(cs@.subrange(lo as int, hi as int).drop_last() =~= cs@.subrange(lo as int, hi as int - 1));
        hi = hi - 1;
    }
    (lo, hi)
}

/// Seconds of a duration text, as `duration_seconds` reads it.
pub fn parse_seconds(duration: &str) -> (r: Result<u64, RtopError>)
    ensures
        r is Ok <==> duration_seconds(duration@) is Some,
        r matches Ok(v) ==> duration_seconds(duration@) == Some(v as nat),
        r matches Err(e) ==> e is InvalidInput,
{
    let cs = chars_of(duration);
    let n = cs.len();
    let ghost s = cs@;
    assert(s.subrange(0, n as int) =~= s);
    let (lo, hi) = trimmed_range(&cs, 0, n);
    let ghost t = s.subrange(lo as int, hi as int);
    assert(trim_end(trim_start(s)) == t);
    let (suffix, factor): (char, u64) = if hi > lo && cs[hi - 1] == 's' {
        ('s', 1)
    } else if hi > lo && cs[hi - 1] == 'm' {
        ('m', 60)
    } else if hi > lo && cs[hi - 1] == 'h' {
        ('h', 3600)
    } else {
        (' ', 1)
    };
    let mut end = hi;
    if suffix != ' ' {
        while end > lo && cs[end - 1] == suffix
            invariant
                lo <= end <= hi,
                hi <= n,
                n == s.len(),
                cs@ == s,
                t == s.subrange(lo as int, hi as int),
                strip_end(t, suffix) == strip_end(s.subrange(lo as int, end as int), suffix),
            decreases end,
        {
            assert(s.subrange(lo as int, end as int).drop_last() =~= s.subrange(lo as int, end as int - 1));
            end = end - 1;
        }
    }
    let ghost body = s.subrange(lo as int, end as int);
    assert(suffix != ' ' ==> strip_end(t, suffix) == body);
    assert(suffix == ' ' ==> t == body);
    match parse_u64_in(&cs, lo, end) {
        Some(v) => {
            if factor > 1 && v > u64::MAX / factor {
                proof {
                    assert(v * factor > u64::MAX) by (nonlinear_arith)
                        requires
                            v > u64::MAX / factor,
                            factor > 1,
                    ;
                }
                Err(RtopError::InvalidInput(String::from_str("duration out of range")))
            } else {
                proof {
                    assert(v * factor <= u64::MAX) by (nonlinear_arith)
                        requires
                            factor == 1 || v <= u64::MAX / factor,
                            factor >= 1,
                    ;
                }
                Ok(v * factor)
            }
        },
        None => Err(RtopError::InvalidInput(String::from_str("invalid duration"))),
    }
}

/// Whether `c` is Unicode white space.
fn is_white_space_char(c: char) -> (r: bool)
    ensures
        r == is_white_space(c),
{
    let u = c as u32;
    (0x9 <= u && u <= 0xd) || u == 0x20 || u == 0x85 || u == 0xa0 || u == 0x1680 || (0x2000 <= u
        && u <= 0x200a) || u == 0x2028 || u == 0x2029 || u == 0x202f || u == 0x205f || u == 0x3000
}

impl Cli {
    /// Reads a run duration such as `30s`, `5m`, `2h` or `45` (seconds).
    pub fn parse_duration(duration: &str) -> (r: Result<Duration, RtopError>)
        ensures
            r is Ok <==> duration_seconds(duration@) is Some,
            r matches Ok(d) ==> d == duration_of_secs(duration_seconds(duration@)->0 as u64),
            r matches Err(e) ==> e is InvalidInput,
    {
        match parse_seconds(duration) {
            Ok(secs) => Ok(duration_from_secs(secs)),
            Err(e) => Err(e),
        }
    }
}

} // verus!
