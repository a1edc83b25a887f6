//! Reads one line of the NVIDIA management tool's CSV query output.
use vstd::prelude::*;
use crate::cli::{all_digits, digits_value, parse_u64, parse_u64_in, trim_end, trim_start, trimmed_range};
use crate::text::{chars_of, push_char};

verus! {

/// Fields of a line split at each comma; a line without commas is one field.
pub open spec fn split_commas(s: Seq<char>) -> Seq<Seq<char>>
    decreases s.len(),
{
    if s.len() == 0 {
        seq![Seq::empty()]
    } else {
        let p = split_commas(s.drop_last());
        if s.last() == ',' {
            p.push(Seq::empty())
        } else {
            p.update(p.len() - 1, p.last().push(s.last()))
        }
    }
}

/// Field `k` of `line`, without surrounding white space.
pub open spec fn csv_field(line: Seq<char>, k: int) -> Seq<char> {
    trim_end(trim_start(split_commas(line)[k]))
}

/// The unsigned number that `s` writes, if it is at most `max`.
pub open spec fn parse_bounded(s: Seq<char>, max: nat) -> Option<nat> {
    match parse_u64(s) {
        Some(v) => if v <= max { Some(v) } else { None },
        None => None,
    }
}

/// The `i32` that `s` writes, with an optional sign, the way `i32::from_str`
/// reads it.
pub open spec fn parse_i32(s: Seq<char>) -> Option<int> {
    if s.len() > 0 && s[0] == '-' {
        let body = s.drop_first();
        if body.len() > 0 && all_digits(body) && digits_value(body) <= 0x8000_0000 {
            Some(-(digits_value(body) as int))
        } else {
            None
        }
    } else {
        match parse_bounded(s, 0x7fff_ffff) {
            Some(v) => Some(v as int),
            None => None,
        }
    }
}

/// Mebibytes in bytes, capped at `u64::MAX`.
pub open spec fn mib_bytes(n: nat) -> u64 {
    if n * 1_048_576 > u64::MAX {
        u64::MAX
    } else {
        (n * 1_048_576) as u64
    }
}

/// One GPU as a query line reports it. Power stays text: it is a decimal
/// fraction of watts.
pub struct GpuReading {
    pub index: usize,
    pub name: String,
    pub utilization: u8,
    pub memory_used: u64,
    pub memory_total: u64,
    pub temperature: Option<i32>,
    pub power_text: String,
    pub clock_speed: Option<u32>,
    pub fan_speed: Option<u8>,
}

/// `value` if present, else `fallback`.
pub open spec fn or_else(value: Option<nat>, fallback: nat) -> nat {
    match value {
        Some(v) => v,
        None => fallback,
    }
}

/// Bounds of each comma-separated field of `cs`.
fn field_ranges(cs: &Vec<char>) -> (r: Vec<(usize, usize)>)
    ensures
        r@.len() == split_commas(cs@).len(),
        forall|k: int|
            0 <= k < r@.len() ==> (#[trigger] r@[k]).0 <= r@[k].1 <= cs@.len() && split_commas(cs@)[k]
                == cs@.subrange(r@[k].0 as int, r@[k].1 as int),
{
    let n = cs.len();
    let mut done: Vec<(usize, usize)> = Vec::new();
    let mut start: usize = 0;
    let mut i: usize = 0;
    assert(cs@.subrange(0, 0) =~= Seq::<char>::empty());
    while i < n
        invariant
            n == cs@.len(),
            start <= i <= n,
            split_commas(cs@.subrange(0, i as int)).len() == done@.len() + 1,
            forall|k: int|
                0 <= k < done@.len() ==> (#[trigger] done@[k]).0 <= done@[k].1 <= i && split_commas(
                    cs@.subrange(0, i as int),
                )[k] == cs@.subrange(done@[k].0 as int, done@[k].1 as int),
            split_commas(cs@.subrange(0, i as int))[done@.len() as int] == cs@.subrange(start as int, i as int),
        decreases n - i,
    {
        let ghost prefix = cs@.subrange(0, i as int + 1);
        assert(prefix.drop_last() =~= cs@.subrange(0, i as int));
        if cs[i] == ',' {
            done.push((start, i));
            start = i + 1;
            assert(cs@.subrange(start as int, i as int + 1) =~= Seq::<char>::empty());
        } else {
            assert(cs@.subrange(start as int, i as int + 1) =~= cs@.subrange(start as int, i as int).push(cs@[i as int]));
        }
        i = i + 1;
    }
    done.push((start, n));
    assert(cs@.subrange(0, n as int) =~= cs@);
    done
}

/// The text of `cs[from..to]`.
fn text_of(cs: &Vec<char>, from: usize, to: usize) -> (r: String)
    requires
        from <= to <= cs@.len(),
    ensures
        r@ == cs@.subrange(from as int, to as int),
{
    let mut out = String::new();
    let mut i: usize = from;
    while i < to
        invariant
            from <= i <= to,
            to <= cs@.len(),
            out@ == cs@.subrange(from as int, i as int),
        decreases to - i,
    {
        push_char(&mut out, cs[i]);
        i = i + 1;
        assert(out@ =~= cs@.subrange(from as int, i as int));
    }
    out
}

/// The unsigned number that `cs[from..to]` writes, if it is at most `max`.
fn parse_bounded_in(cs: &Vec<char>, from: usize, to: usize, max: u64) -> (r: Option<u64>)
    requires
        from <= to <= cs@.len(),
    ensures
        r matches Some(v) ==> parse_bounded(cs@.subrange(from as int, to as int), max as nat) == Some(v as nat),
        r is None ==> parse_bounded(cs@.subrange(from as int, to as int), max as nat) is None,
{
    match parse_u64_in(cs, from, to) {
        Some(v) => if v <= max {
            Some(v)
        } else {
            None
        },
        None => None,
    }
}

/// The `i32` that `cs[from..to]` writes.
fn parse_i32_in(cs: &Vec<char>, from: usize, to: usize) -> (r: Option<i32>)
    requires
        from <= to <= cs@.len(),
    ensures
        r matches Some(v) ==> parse_i32(cs@.subrange(from as int, to as int)) == Some(v as int),
        r is None ==> parse_i32(cs@.subrange(from as int, to as int)) is None,
{
    let ghost s = cs@.subrange(from as int, to as int);
    if from < to && cs[from] == '-' {
        let ghost body = s.drop_first();
        assert(body =~= cs@.subrange(from as int + 1, to as int));
        if from + 1 < to && cs[from + 1] == '+' {
            assert(!crate::cli::is_digit(body[0]));
            return None;
        }
        assert(body.len() > 0 ==> body[0] != '+');
        assert(crate::cli::number_body(body) == body);
        match parse_u64_in(cs, from + 1, to) {
            Some(v) => if v <= 0x8000_0000 {
                Some((0 - (v as i64)) as i32)
            } else {
                None
            },
            None => None,
        }
    } else {
        match parse_bounded_in(cs, from, to, 0x7fff_ffff) {
            Some(v) => Some(v as i32),
            None => None,
        }
    }
}

/// Reads the query line at `position` of the output, whose fields are index,
/// name, utilization, memory used and total (MiB), temperature, power,
/// graphics clock and fan speed. A field that does not parse is 0 for the
/// utilization and memory, `position` for the index, and absent for the
/// rest. A line with fewer than nine fields is skipped.
pub fn parse_nvidia_line(line: &str, position: usize) -> (r: Option<GpuReading>)
    ensures
        r is Some <==> split_commas(line@).len() >= 9,
        r matches Some(g) ==> {
            &&& g.index == or_else(parse_bounded(csv_field(line@, 0), usize::MAX as nat), position as nat)
            &&& g.name@ == csv_field(line@, 1)
            &&& g.utilization == or_else(parse_bounded(csv_field(line@, 2), 255), 0)
            &&& g.memory_used == mib_bytes(or_else(parse_u64(csv_field(line@, 3)), 0))
            &&& g.memory_total == mib_bytes(or_else(parse_u64(csv_field(line@, 4)), 0))
            &&& (g.temperature matches Some(t) ==> parse_i32(csv_field(line@, 5)) == Some(t as int))
            &&& (g.temperature is None ==> parse_i32(csv_field(line@, 5)) is None)
            &&& g.power_text@ == csv_field(line@, 6)
            &&& (g.clock_speed matches Some(c) ==> parse_bounded(csv_field(line@, 7), u32::MAX as nat) == Some(c as nat))
            &&& (g.clock_speed is None ==> parse_bounded(csv_field(line@, 7), u32::MAX as nat) is None)
            &&& (g.fan_speed matches Some(f) ==> parse_bounded(csv_field(line@, 8), 255) == Some(f as nat))
            &&& (g.fan_speed is None ==> parse_bounded(csv_field(line@, 8), 255) is None)
        },
{
    let cs = chars_of(line);
    let ranges = field_ranges(&cs);
    if ranges.len() < 9 {
        return None;
    }
    let mut bounds: Vec<(usize, usize)> = Vec::new();
    let mut k: usize = 0;
    while k < 9
        invariant
            k <= 9,
            ranges@.len() >= 9,
            cs@ == line@,
            bounds@.len() == k,
            forall|j: int|
                0 <= j < ranges@.len() ==> (#[trigger] ranges@[j]).0 <= ranges@[j].1 <= cs@.len() && split_commas(cs@)[j]
                    == cs@.subrange(ranges@[j].0 as int, ranges@[j].1 as int),
            forall|j: int|
                0 <= j < k ==> (#[trigger] bounds@[j]).0 <= bounds@[j].1 <= cs@.len() && cs@.subrange(
                    bounds@[j].0 as int,
                    bounds@[j].1 as int,
                ) == csv_field(line@, j),
        decreases 9 - k,
    {
        let (from, to) = ranges[k];
        let t = trimmed_range(&cs, from, to);
        bounds.push(t);
        k = k + 1;
    }
    let index = match parse_bounded_in(&cs, bounds[0].0, bounds[0].1, usize::MAX as u64) {
        Some(v) => v as usize,
        None => position,
    };
    let utilization = match parse_bounded_in(&cs, bounds[2].0, bounds[2].1, 255) {
        Some(v) => v as u8,
        None => 0,
    };
    let memory_used = mib(parse_u64_in(&cs, bounds[3].0, bounds[3].1));
    let memory_total = mib(parse_u64_in(&cs, bounds[4].0, bounds[4].1));
    let clock_speed = match parse_bounded_in(&cs, bounds[7].0, bounds[7].1, u32::MAX as u64) {
        Some(v) => Some(v as u32),
        None => None,
    };
    let fan_speed = match parse_bounded_in(&cs, bounds[8].0, bounds[8].1, 255) {
        Some(v) => Some(v as u8),
        None => None,
    };
    Some(GpuReading {
        index,
        name: text_of(&cs, bounds[1].0, bounds[1].1),
        utilization,
        memory_used,
        memory_total,
        temperature: parse_i32_in(&cs, bounds[5].0, bounds[5].1),
        power_text: text_of(&cs, bounds[6].0, bounds[6].1),
        clock_speed,
        fan_speed,
    })
}

/// Bytes of a MiB count that may be absent (0).
fn mib(n: Option<u64>) -> (r: u64)
    ensures
        r == mib_bytes(
            match n {
                Some(v) => v as nat,
                None => 0,
            },
        ),
{
    match n {
        Some(v) => if v > u64::MAX / 1_048_576 {
            u64::MAX
        } else {
            v * 1_048_576
        },
        None => 0,
    }
}

} // verus!
