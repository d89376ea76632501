//! Per-namespace key counts, read from the store's keyspace summary.
//!
//! The summary is text of lines such as `db0:keys=1,expires=0,avg_ttl=0`.
//! Lines of any other shape, indices past 15 and malformed counts are
//! skipped.

use crate::text::chars_of;
use vstd::prelude::*;

verus! {

/// The number of namespaces that a summary reports on.
pub const NAMESPACES: usize = 16;

pub open spec fn is_digit(c: char) -> bool {
    '0' <= c && c <= '9'
}

pub open spec fn all_digits(s: Seq<char>) -> bool {
    forall|j: int| 0 <= j < s.len() ==> is_digit(#[trigger] s[j])
}

/// The value of a run of decimal digits.
pub open spec fn digits_value(s: Seq<char>) -> int
    decreases s.len(),
{
    if s.len() == 0 {
        0
    } else {
        digits_value(s.drop_last()) * 10 + (s.last() as int - '0' as int)
    }
}

/// An unsigned decimal number with an optional `+`, as `usize` reads it.
pub open spec fn parse_unsigned(s: Seq<char>) -> Option<int> {
    let d = if s.len() > 1 && s[0] == '+' {
        s.drop_first()
    } else {
        s
    };
    if d.len() > 0 && all_digits(d) && digits_value(d) <= usize::MAX {
        Some(digits_value(d))
    } else {
        None
    }
}

/// A signed decimal number with an optional `+` or `-`, as `i64` reads it.
pub open spec fn parse_signed(s: Seq<char>) -> Option<int> {
    if s.len() > 1 && s[0] == '-' {
        let d = s.drop_first();
        if all_digits(d) && digits_value(d) <= 0x8000_0000_0000_0000 {
            Some(-digits_value(d))
        } else {
            None
        }
    } else {
        let d = if s.len() > 1 && s[0] == '+' {
            s.drop_first()
        } else {
            s
        };
        if d.len() > 0 && all_digits(d) && digits_value(d) <= i64::MAX {
            Some(digits_value(d))
        } else {
            None
        }
    }
}

/// Reads the digits `t[a..b]`: their value, where all are digits and the
/// value fits in a `u64`.
fn read_digits(t: &Vec<char>, a: usize, b: usize) -> (r: Option<u64>)
    requires
        a <= b <= t@.len(),
    ensures
        all_digits(t@.subrange(a as int, b as int)) ==> digits_value(t@.subrange(a as int, b as int))
            >= 0,
        r == (if all_digits(t@.subrange(a as int, b as int)) && digits_value(
            t@.subrange(a as int, b as int),
        ) <= u64::MAX {
            Some(digits_value(t@.subrange(a as int, b as int)) as u64)
        } else {
            None
        }),
{
    let mut acc: u64 = 0;
    let mut over = false;
    let mut j: usize = a;
    while j < b
        invariant
            a <= j <= b <= t@.len(),
            all_digits(t@.subrange(a as int, j as int)),
            digits_value(t@.subrange(a as int, j as int)) >= 0,
            over ==> digits_value(t@.subrange(a as int, j as int)) > u64::MAX,
            !over ==> acc == digits_value(t@.subrange(a as int, j as int)),
        decreases b - j,
    {
        let c = t[j];
        let ghost prev = t@.subrange(a as int, j as int);
        let ghost next = t@.subrange(a as int, j + 1);
        assert(next.drop_last() =~= prev);
        if !('0' <= c && c <= '9') {
            assert(!all_digits(t@.subrange(a as int, b as int))) by {
                assert(t@.subrange(a as int, b as int)[j - a] == c);
            }
            return None;
        }
        let d = (c as u32 - '0' as u32) as u64;
        assert(digits_value(next) == digits_value(prev) * 10 + d);
        if !over {
            if acc > (u64::MAX - d) / 10 {
                over = true;
                assert(acc * 10 + d > u64::MAX) by (nonlinear_arith)
                    requires
                        acc > (u64::MAX - d) / 10,
                        d <= 9,
                ;
            } else {
                assert(acc * 10 + d <= u64::MAX) by (nonlinear_arith)
                    requires
                        acc <= (u64::MAX - d) / 10,
                        d <= 9,
                ;
                acc = acc * 10 + d;
            }
        } else {
            assert(digits_value(prev) * 10 + d > u64::MAX) by (nonlinear_arith)
                requires
                    digits_value(prev) > u64::MAX,
                    d >= 0,
            ;
        }
        assert(all_digits(next)) by {
            assert forall|k: int| 0 <= k < next.len() implies is_digit(#[trigger] next[k]) by {
                if k < prev.len() {
                    assert(next[k] == prev[k]);
                }
            }
        }
        j += 1;
    }
    if over {
        None
    } else {
        Some(acc)
    }
}

/// Reads `t[a..b]` as an unsigned number.
fn read_unsigned(t: &Vec<char>, a: usize, b: usize) -> (r: Option<usize>)
    requires
        a <= b <= t@.len(),
    ensures
        match parse_unsigned(t@.subrange(a as int, b as int)) {
            Some(v) => 0 <= v && r == Some(v as usize),
            None => r is None,
        },
{
    let ghost s = t@.subrange(a as int, b as int);
    assert(s.len() == b - a);
    assert(b > a ==> s[0] == t@[a as int]);
    let start: usize = if b - a > 1 && t[a] == '+' {
        a + 1
    } else {
        a
    };
    assert(start == a + 1 ==> t@.subrange(start as int, b as int) =~= s.drop_first());
    assert(start == a ==> t@.subrange(start as int, b as int) =~= s);
    if start == b {
        return None;
    }
    match read_digits(t, start, b) {
        Some(v) => {
            if v <= usize::MAX as u64 {
                Some(v as usize)
            } else {
                None
            }
        },
        None => None,
    }
}

/// Reads `t[a..b]` as a signed number.
fn read_signed(t: &Vec<char>, a: usize, b: usize) -> (r: Option<i64>)
    requires
        a <= b <= t@.len(),
    ensures
        match parse_signed(t@.subrange(a as int, b as int)) {
            Some(v) => r == Some(v as i64),
            None => r is None,
        },
{
    let ghost s = t@.subrange(a as int, b as int);
    assert(s.len() == b - a);
    assert(b > a ==> s[0] == t@[a as int]);
    if b - a > 1 && t[a] == '-' {
        assert(t@.subrange(a + 1, b as int) =~= s.drop_first());
        match read_digits(t, a + 1, b) {
            Some(v) => {
                if v <= 0x8000_0000_0000_0000u64 {
                    if v == 0x8000_0000_0000_0000u64 {
                        Some(i64::MIN)
                    } else {
                        Some(-(v as i64))
                    }
                } else {
                    None
                }
            },
            None => None,
        }
    } else {
        let start: usize = if b - a > 1 && t[a] == '+' {
            a + 1
        } else {
            a
        };
        assert(start == a + 1 ==> t@.subrange(start as int, b as int) =~= s.drop_first());
        assert(start == a ==> t@.subrange(start as int, b as int) =~= s);
        if start == b {
            return None;
        }
        match read_digits(t, start, b) {
            Some(v) => {
                if v <= i64::MAX as u64 {
                    Some(v as i64)
                } else {
                    None
                }
            },
            None => None,
        }
    }
}

/// Finds the first `c` in `t[a..b]`.
fn find_char(t: &Vec<char>, a: usize, b: usize, c: char) -> (r: Option<usize>)
    requires
        a <= b <= t@.len(),
    ensures
        match r {
            Some(k) => a <= k < b && t@[k as int] == c && forall|j: int|
                a <= j < k ==> t@[j] != c,
            None => forall|j: int| a <= j < b ==> t@[j] != c,
        },
{
    let mut j: usize = a;
    while j < b
        invariant
            a <= j <= b <= t@.len(),
            forall|i: int| a <= i < j ==> t@[i] != c,
        decreases b - j,
    {
        if t[j] == c {
            return Some(j);
        }
        j += 1;
    }
    None
}

/// The position of the first `c` in `s`, or -1 where there is none.
pub open spec fn first_index(s: Seq<char>, c: char) -> int {
    if exists|k: int| 0 <= k < s.len() && s[k] == c && forall|j: int| 0 <= j < k ==> s[j] != c {
        choose|k: int| 0 <= k < s.len() && s[k] == c && forall|j: int| 0 <= j < k ==> s[j] != c
    } else {
        -1
    }
}

proof fn lemma_first_index(t: Seq<char>, a: int, b: int, c: char, r: Option<usize>)
    requires
        0 <= a <= b <= t.len(),
        match r {
            Some(k) => a <= k < b && t[k as int] == c && forall|j: int| a <= j < k ==> t[j] != c,
            None => forall|j: int| a <= j < b ==> t[j] != c,
        },
    ensures
        first_index(t.subrange(a, b), c) == match r {
            Some(k) => k - a,
            None => -1,
        },
{
    let s = t.subrange(a, b);
    match r {
        Some(k) => {
            let w = k - a;
            assert(0 <= w < s.len() && s[w] == c && forall|j: int| 0 <= j < w ==> s[j] != c) by {
                assert forall|j: int| 0 <= j < w implies s[j] != c by {
                    assert(s[j] == t[a + j]);
                }
            }
            let x = first_index(s, c);
            assert(0 <= x < s.len() && s[x] == c && forall|j: int| 0 <= j < x ==> s[j] != c);
            if x < w {
                assert(s[x] != c);
            }
            if w < x {
                assert(s[w] != c);
            }
        },
        None => {
            assert forall|k: int| 0 <= k < s.len() implies s[k] != c by {
                assert(s[k] == t[a + k]);
            }
        },
    }
}

/// Unicode white space, which trimming removes.
pub open spec fn is_space(c: char) -> bool {
    let u = c as u32;
    (0x09 <= u && u <= 0x0D) || u == 0x20 || u == 0x85 || u == 0xA0 || u == 0x1680 || (0x2000 <= u
        && u <= 0x200A) || u == 0x2028 || u == 0x2029 || u == 0x202F || u == 0x205F || u == 0x3000
}

pub open spec fn trim_start(s: Seq<char>) -> Seq<char>
    decreases s.len(),
{
    if s.len() > 0 && is_space(s[0]) {
        trim_start(s.drop_first())
    } else {
        s
    }
}

pub open spec fn trim_end(s: Seq<char>) -> Seq<char>
    decreases s.len(),
{
    if s.len() > 0 && is_space(s.last()) {
        trim_end(s.drop_last())
    } else {
        s
    }
}

/// `s` without white space at either end.
pub open spec fn trimmed(s: Seq<char>) -> Seq<char> {
    trim_end(trim_start(s))
}

fn is_space_char(c: char) -> (r: bool)
    ensures
        r == is_space(c),
{
    let u = c as u32;
    (0x09 <= u && u <= 0x0D) || u == 0x20 || u == 0x85 || u == 0xA0 || u == 0x1680 || (0x2000 <= u
        && u <= 0x200A) || u == 0x2028 || u == 0x2029 || u == 0x202F || u == 0x205F || u == 0x3000
}

/// The bounds of `t[a..b]` without white space at either end.
fn trim_bounds(t: &Vec<char>, a: usize, b: usize) -> (r: (usize, usize))
    requires
        a <= b <= t@.len(),
    ensures
        a <= r.0 <= r.1 <= b,
        t@.subrange(r.0 as int, r.1 as int) == trimmed(t@.subrange(a as int, b as int)),
{
    let mut i: usize = a;
    while i < b && is_space_char(t[i])
        invariant
            a <= i <= b <= t@.len(),
            trim_start(t@.subrange(a as int, b as int)) == trim_start(t@.subrange(i as int, b as int)),
        decreases b - i,
    {
        assert(t@.subrange(i as int, b as int).drop_first() =~= t@.subrange(i + 1, b as int));
        i += 1;
    }
    assert(trim_start(t@.subrange(i as int, b as int)) == t@.subrange(i as int, b as int));
    let mut j: usize = b;
    while j > i && is_space_char(t[j - 1])
        invariant
            a <= i <= j <= b <= t@.len(),
            trimmed(t@.subrange(a as int, b as int)) == trim_end(t@.subrange(i as int, j as int)),
        decreases j - i,
    {
        assert(t@.subrange(i as int, j as int).drop_last() =~= t@.subrange(i as int, j - 1));
        j -= 1;
    }
    assert(trim_end(t@.subrange(i as int, j as int)) == t@.subrange(i as int, j as int));
    (i, j)
}

/// The effect of one metric `m` of the line for namespace `idx`: a
/// `keys=<count>` metric sets that namespace's count.
pub open spec fn metric_effect(sizes: Seq<i64>, idx: int, m: Seq<char>) -> Seq<i64> {
    let t = trimmed(m);
    if t.len() >= 5 && t[0] == 'k' && t[1] == 'e' && t[2] == 'y' && t[3] == 's' && t[4] == '=' {
        match parse_signed(t.subrange(5, t.len() as int)) {
            Some(n) => sizes.update(idx, n as i64),
            None => sizes,
        }
    } else {
        sizes
    }
}

/// The effect of the comma-separated metrics `seg`, taken in order.
pub open spec fn metrics_effect(sizes: Seq<i64>, idx: int, seg: Seq<char>) -> Seq<i64>
    decreases seg.len(),
{
    let k = first_index(seg, ',');
    if 0 <= k < seg.len() {
        metrics_effect(
            metric_effect(sizes, idx, seg.subrange(0, k)),
            idx,
            seg.subrange(k + 1, seg.len() as int),
        )
    } else {
        metric_effect(sizes, idx, seg)
    }
}

fn apply_metric(sizes: &mut Vec<i64>, t: &Vec<char>, a: usize, b: usize, idx: usize)
    requires
        a <= b <= t@.len(),
        idx < old(sizes)@.len(),
    ensures
        final(sizes)@.len() == old(sizes)@.len(),
        final(sizes)@ == metric_effect(old(sizes)@, idx as int, t@.subrange(a as int, b as int)),
{
    let (s, e) = trim_bounds(t, a, b);
    let ghost m = t@.subrange(s as int, e as int);
    if e - s >= 5 && t[s] == 'k' && t[s + 1] == 'e' && t[s + 2] == 'y' && t[s + 3] == 's' && t[s
        + 4] == '=' {
        assert(m.subrange(5, m.len() as int) =~= t@.subrange(s + 5, e as int));
        match read_signed(t, s + 5, e) {
            Some(n) => {
                sizes.set(idx, n);
            },
            None => {},
        }
    } else {
        assert(!(m.len() >= 5 && m[0] == 'k' && m[1] == 'e' && m[2] == 'y' && m[3] == 's' && m[4]
            == '='));
    }
}

fn apply_metrics(sizes: &mut Vec<i64>, t: &Vec<char>, a: usize, b: usize, idx: usize)
    requires
        a <= b <= t@.len(),
        idx < old(sizes)@.len(),
    ensures
        final(sizes)@.len() == old(sizes)@.len(),
        final(sizes)@ == metrics_effect(old(sizes)@, idx as int, t@.subrange(a as int, b as int)),
{
    let ghost target = metrics_effect(old(sizes)@, idx as int, t@.subrange(a as int, b as int));
    let mut p: usize = a;
    let mut done = false;
    while !done
        invariant
            a <= p <= b <= t@.len(),
            idx < sizes@.len(),
            sizes@.len() == old(sizes)@.len(),
            done ==> sizes@ == target,
            !done ==> target == metrics_effect(sizes@, idx as int, t@.subrange(p as int, b as int)),
        decreases b - p + (if done { 0int } else { 1int }),
    {
        let found = find_char(t, p, b, ',');
        proof {
            lemma_first_index(t@, p as int, b as int, ',', found);
        }
        match found {
            Some(k) => {
                let ghost seg = t@.subrange(p as int, b as int);
                assert(seg.subrange(0, k - p) =~= t@.subrange(p as int, k as int));
                assert(seg.subrange(k - p + 1, seg.len() as int) =~= t@.subrange(k + 1, b as int));
                apply_metric(sizes, t, p, k, idx);
                p = k + 1;
            },
            None => {
                assert(metrics_effect(sizes@, idx as int, t@.subrange(p as int, b as int))
                    == metric_effect(sizes@, idx as int, t@.subrange(p as int, b as int)));
                apply_metric(sizes, t, p, b, idx);
                done = true;
            },
        }
    }
}

/// The effect of one line: `db<index>:<metrics>` with an index below 16
/// applies its metrics (up to any further `:`) to that namespace; any
/// other line changes nothing.
#[verifier::opaque]
pub open spec fn line_effect(sizes: Seq<i64>, line: Seq<char>) -> Seq<i64> {
    let c = first_index(line, ':');
    if line.len() >= 2 && line[0] == 'd' && line[1] == 'b' && 2 <= c < line.len() {
        match parse_unsigned(line.subrange(2, c)) {
            Some(i) => if i < NAMESPACES {
                let rest = line.subrange(c + 1, line.len() as int);
                let e = first_index(rest, ':');
                let seg = if 0 <= e < rest.len() {
                    rest.subrange(0, e)
                } else {
                    rest
                };
                metrics_effect(sizes, i, seg)
            } else {
                sizes
            },
            None => sizes,
        }
    } else {
        sizes
    }
}

/// A line without the carriage return that ended it.
pub open spec fn strip_cr(line: Seq<char>) -> Seq<char> {
    if line.len() > 0 && line.last() == '\r' {
        line.drop_last()
    } else {
        line
    }
}

/// The effect of every line of `t`, in order. Lines end at `\n` (a `\r`
/// before it is dropped); a final `\n` starts no further line.
pub open spec fn lines_effect(t: Seq<char>, sizes: Seq<i64>) -> Seq<i64>
    decreases t.len(),
{
    if t.len() == 0 {
        sizes
    } else {
        let nl = first_index(t, '\n');
        if 0 <= nl < t.len() {
            lines_effect(
                t.subrange(nl + 1, t.len() as int),
                line_effect(sizes, strip_cr(t.subrange(0, nl))),
            )
        } else {
            line_effect(sizes, t)
        }
    }
}

/// The key count of every namespace 0 to 15 that a keyspace summary
/// reports; 0 for any that it does not mention.
pub open spec fn keyspace_sizes(text: Seq<char>) -> Seq<i64> {
    lines_effect(text, Seq::new(NAMESPACES as nat, |i: int| 0i64))
}

fn apply_line(sizes: &mut Vec<i64>, t: &Vec<char>, a: usize, b: usize)
    requires
        a <= b <= t@.len(),
        old(sizes)@.len() == NAMESPACES,
    ensures
        final(sizes)@.len() == old(sizes)@.len(),
        final(sizes)@ == line_effect(old(sizes)@, t@.subrange(a as int, b as int)),
{
    reveal(line_effect);
    let ghost line = t@.subrange(a as int, b as int);
    if b - a < 2 || t[a] != 'd' || t[a + 1] != 'b' {
        return;
    }
    let found = find_char(t, a, b, ':');
    proof {
        lemma_first_index(t@, a as int, b as int, ':', found);
    }
    let c = match found {
        Some(c) => c,
        None => {
            return;
        },
    };
    assert(t@[a as int] != ':' && t@[a + 1] != ':');
    assert(c - a >= 2);
    assert(line.subrange(2, c - a) =~= t@.subrange(a + 2, c as int));
    let idx = match read_unsigned(t, a + 2, c) {
        Some(i) => i,
        None => {
            return;
        },
    };
    if idx >= NAMESPACES {
        return;
    }
    let ghost rest = line.subrange(c - a + 1, line.len() as int);
    assert(rest =~= t@.subrange(c + 1, b as int));
    let second = find_char(t, c + 1, b, ':');
    proof {
        lemma_first_index(t@, c + 1, b as int, ':', second);
    }
    let e = match second {
        Some(e) => e,
        None => b,
    };
    assert(e < b ==> rest.subrange(0, e - c - 1) =~= t@.subrange(c + 1, e as int));
    apply_metrics(sizes, t, c + 1, e, idx);
}

/// Reads the key count of each of the 16 namespaces from a keyspace
/// summary.
pub fn db_sizes(info: &str) -> (r: Vec<i64>)
    ensures
        r@ == keyspace_sizes(info@),
        r@.len() == NAMESPACES,
{
    let t = chars_of(info);
    let mut sizes: Vec<i64> = Vec::new();
    while sizes.len() < NAMESPACES
        invariant
            sizes@.len() <= NAMESPACES,
            forall|j: int| 0 <= j < sizes@.len() ==> sizes@[j] == 0,
        decreases NAMESPACES - sizes@.len(),
    {
        sizes.push(0);
    }
    assert(sizes@ =~= Seq::new(NAMESPACES as nat, |i: int| 0i64));
    let ghost n = t@.len();
    let mut pos: usize = 0;
    assert(t@.subrange(0, n as int) =~= t@);
    while pos < t.len()
        invariant
            n == t@.len(),
            pos <= n,
            sizes@.len() == NAMESPACES,
            keyspace_sizes(t@) == lines_effect(t@.subrange(pos as int, n as int), sizes@),
        decreases n - pos,
    {
        let ghost rest = t@.subrange(pos as int, n as int);
        let found = find_char(&t, pos, t.len(), '\n');
        proof {
            lemma_first_index(t@, pos as int, n as int, '\n', found);
        }
        match found {
            Some(nl) => {
                let end: usize = if nl > pos && t[nl - 1] == '\r' {
                    nl - 1
                } else {
                    nl
                };
                assert(strip_cr(rest.subrange(0, nl - pos)) =~= t@.subrange(pos as int, end as int));
                assert(rest.subrange(nl - pos + 1, rest.len() as int) =~= t@.subrange(nl + 1, n as int));
                apply_line(&mut sizes, &t, pos, end);
                pos = nl + 1;
            },
            None => {
                apply_line(&mut sizes, &t, pos, t.len());
                pos = t.len();
                assert(lines_effect(t@.subrange(pos as int, n as int), sizes@) == sizes@);
            },
        }
    }
    assert(t@.subrange(pos as int, n as int).len() == 0);
    sizes
}

} // verus!
