//! Character-level helpers shared by the argument builder and the device
//! listing parser: decimal rendering, substring search, whitespace trimming
//! and unsigned index parsing.
use vstd::prelude::*;
use vstd::std_specs::iter::IteratorSpec;

verus! {

/// The character of a decimal digit `d < 10`.
pub open spec fn digit_char(d: nat) -> char {
    seq!['0', '1', '2', '3', '4', '5', '6', '7', '8', '9'][d as int]
}

/// The shortest decimal rendering of `n`, without sign or leading zeros.
pub open spec fn decimal(n: nat) -> Seq<char>
    decreases n,
{
    if n < 10 {
        seq![digit_char(n)]
    } else {
        decimal(n / 10).push(digit_char(n % 10))
    }
}

/// Collects the characters of `s` in order.
pub fn chars_of(s: &str) -> (r: Vec<char>)
    ensures
        r@ == s@,
{
    let mut v: Vec<char> = Vec::new();
    for c in iter: s.chars()
        invariant
            v@ == iter.seq().subrange(0, iter.index() as int),
            iter.seq() == s@,
    {
        v.push(c);
    }
    v
}

/// Whether `p` occurs in `s` starting at position `i`.
pub open spec fn occurs_at(s: Seq<char>, p: Seq<char>, i: int) -> bool {
    0 <= i && i + p.len() <= s.len() && s.subrange(i, i + p.len()) == p
}

/// Whether `p` occurs anywhere in `s`.
pub open spec fn contains(s: Seq<char>, p: Seq<char>) -> bool {
    exists|i: int| occurs_at(s, p, i)
}

/// The characters that Unicode classes as white space.
pub open spec fn is_space(c: char) -> bool {
    let u = c as u32;
    (0x09 <= u <= 0x0d) || u == 0x20 || u == 0x85 || u == 0xa0 || u == 0x1680 || (0x2000 <= u
        <= 0x200a) || u == 0x2028 || u == 0x2029 || u == 0x202f || u == 0x205f || u == 0x3000
}

/// `s` without its leading white space.
pub open spec fn trim_start(s: Seq<char>) -> Seq<char>
    decreases s.len(),
{
    if s.len() > 0 && is_space(s[0]) {
        trim_start(s.drop_first())
    } else {
        s
    }
}

/// `s` without its trailing white space.
pub open spec fn trim_end(s: Seq<char>) -> Seq<char>
    decreases s.len(),
{
    if s.len() > 0 && is_space(s.last()) {
        trim_end(s.drop_last())
    } else {
        s
    }
}

/// `s` without white space at either end.
pub open spec fn trim(s: Seq<char>) -> Seq<char> {
    trim_end(trim_start(s))
}

pub open spec fn is_digit(c: char) -> bool {
    '0' <= c && c <= '9'
}

pub open spec fn all_digits(s: Seq<char>) -> bool {
    forall|i: int| 0 <= i < s.len() ==> is_digit(#[trigger] s[i])
}

/// The value of a run of decimal digits.
pub open spec fn digits_value(s: Seq<char>) -> nat
    decreases s.len(),
{
    if s.len() == 0 {
        0
    } else {
        digits_value(s.drop_last()) * 10 + (s.last() as nat - '0' as nat) as nat
    }
}

/// The unsigned 32-bit number that `s` spells: an optional `+`, then one or
/// more decimal digits whose value fits in 32 bits.
pub open spec fn parse_index(s: Seq<char>) -> Option<u32> {
    let d = if s.len() > 0 && s[0] == '+' {
        s.drop_first()
    } else {
        s
    };
    if d.len() > 0 && all_digits(d) && digits_value(d) <= u32::MAX {
        Some(digits_value(d) as u32)
    } else {
        None
    }
}

fn digit_str(d: u64) -> (r: &'static str)
    requires
        d < 10,
    ensures
        r@ == seq![digit_char(d as nat)],
{
    proof {
        reveal_strlit("0");
        reveal_strlit("1");
        reveal_strlit("2");
        reveal_strlit("3");
        reveal_strlit("4");
        reveal_strlit("5");
        reveal_strlit("6");
        reveal_strlit("7");
        reveal_strlit("8");
        reveal_strlit("9");
    }
    let r = match d {
        0 => "0",
        1 => "1",
        2 => "2",
        3 => "3",
        4 => "4",
        5 => "5",
        6 => "6",
        7 => "7",
        8 => "8",
        _ => "9",
    };
    assert(r@ =~= seq![digit_char(d as nat)]);
    r
}

/// The decimal rendering of `n`.
pub fn decimal_string(n: u64) -> (r: String)
    ensures
        r@ == decimal(n as nat),
    decreases n,
{
    if n < 10 {
        String::from_str(digit_str(n))
    } else {
        let mut s = decimal_string(n / 10);
        s.append(digit_str(n % 10));
        s
    }
}

/// Whether `p` occurs in `v[lo..hi]`.
pub fn contains_in(v: &Vec<char>, lo: usize, hi: usize, p: &Vec<char>) -> (r: bool)
    requires
        lo <= hi <= v.len(),
    ensures
        r == contains(v@.subrange(lo as int, hi as int), p@),
{
    let ghost line = v@.subrange(lo as int, hi as int);
    if p.len() > hi - lo {
        assert(forall|i: int| !occurs_at(line, p@, i));
        return false;
    }
    let last: usize = hi - p.len();
    let mut i: usize = lo;
    while i <= last
        invariant
            lo <= i <= last + 1,
            last + p.len() == hi,
            hi <= v.len(),
            line == v@.subrange(lo as int, hi as int),
            forall|k: int| 0 <= k < i - lo ==> !occurs_at(line, p@, k),
        decreases last + 1 - i,
    {
        let mut j: usize = 0;
        let mut same = true;
        while j < p.len()
            invariant
                i + p.len() <= hi,
                hi <= v.len(),
                j <= p.len(),
                same == (forall|m: int| 0 <= m < j ==> v@[i + m] == p@[m]),
            decreases p.len() - j,
        {
            if v[i + j] != p[j] {
                same = false;
            }
            j += 1;
        }
        if same {
            assert(line.subrange(i - lo, i - lo + p.len()) =~= p@);
            assert(occurs_at(line, p@, i - lo));
            return true;
        }
        assert(!occurs_at(line, p@, i - lo)) by {
            if line.subrange(i - lo, i - lo + p.len()) == p@ {
                let m = choose|m: int| 0 <= m < p.len() && v@[i + m] != p@[m];
                assert(line.subrange(i - lo, i - lo + p.len())[m] == v@[i + m]);
            }
        }
        i += 1;
    }
    assert forall|k: int| !occurs_at(line, p@, k) by {
        if 0 <= k < i - lo {
        }
    }
    false
}

/// Whether `c` is white space.
pub fn is_space_char(c: char) -> (r: bool)
    ensures
        r == is_space(c),
{
    let u = c as u32;
    (0x09 <= u && u <= 0x0d) || u == 0x20 || u == 0x85 || u == 0xa0 || u == 0x1680 || (0x2000
        <= u && u <= 0x200a) || u == 0x2028 || u == 0x2029 || u == 0x202f || u == 0x205f || u
        == 0x3000
}

/// The bounds of `v[lo..hi]` with white space removed from both ends.
pub fn trim_range(v: &Vec<char>, lo: usize, hi: usize) -> (r: (usize, usize))
    requires
        lo <= hi <= v.len(),
    ensures
        lo <= r.0 <= r.1 <= hi,
        v@.subrange(r.0 as int, r.1 as int) == trim(v@.subrange(lo as int, hi as int)),
{
    let mut a: usize = lo;
    while a < hi && is_space_char(v[a])
        invariant
            lo <= a <= hi,
            hi <= v.len(),
            trim_start(v@.subrange(lo as int, hi as int)) == trim_start(
                v@.subrange(a as int, hi as int),
            ),
        decreases hi - a,
    {
        assert(v@.subrange(a as int, hi as int).drop_first() =~= v@.subrange(
            a + 1,
            hi as int,
        ));
        a += 1;
    }
    assert(trim_start(v@.subrange(a as int, hi as int)) == v@.subrange(a as int, hi as int));
    let mut b: usize = hi;
    while b > a && is_space_char(v[b - 1])
        invariant
            a <= b <= hi,
            hi <= v.len(),
            trim_end(v@.subrange(a as int, hi as int)) == trim_end(
                v@.subrange(a as int, b as int),
            ),
        decreases b - a,
    {
        assert(v@.subrange(a as int, b as int).drop_last() =~= v@.subrange(
            a as int,
            b - 1,
        ));
        b -= 1;
    }
    (a, b)
}

/// Reads `v[lo..hi]` as an unsigned 32-bit number, as `parse_index` describes.
pub fn parse_index_in(v: &Vec<char>, lo: usize, hi: usize) -> (r: Option<u32>)
    requires
        lo <= hi <= v.len(),
    ensures
        r == parse_index(v@.subrange(lo as int, hi as int)),
{
    let ghost s = v@.subrange(lo as int, hi as int);
    let mut start: usize = lo;
    if lo < hi && v[lo] == '+' {
        start = lo + 1;
    }
    let ghost d = v@.subrange(start as int, hi as int);
    assert(d == (if s.len() > 0 && s[0] == '+' {
        s.drop_first()
    } else {
        s
    }));
    if start == hi {
        return None;
    }
    let mut acc: u32 = 0;
    let mut over = false;
    let mut k: usize = start;
    while k < hi
        invariant
            start <= k <= hi,
            hi <= v.len(),
            d == v@.subrange(start as int, hi as int),
            s == v@.subrange(lo as int, hi as int),
            d == (if s.len() > 0 && s[0] == '+' {
                s.drop_first()
            } else {
                s
            }),
            all_digits(v@.subrange(start as int, k as int)),
            !over ==> acc == digits_value(v@.subrange(start as int, k as int)),
            over ==> digits_value(v@.subrange(start as int, k as int)) > u32::MAX,
        decreases hi - k,
    {
        let c = v[k];
        if !('0' <= c && c <= '9') {
            assert(d[k - start] == c);
            assert(!is_digit(d[k - start]));
            assert(!all_digits(d));
            return None;
        }
        let ghost prev = v@.subrange(start as int, k as int);
        let ghost next = v@.subrange(start as int, k + 1);
        assert(next.drop_last() =~= prev);
        assert(next.last() == c);
        let dig: u32 = (c as u32) - ('0' as u32);
        if !over {
            let big: u64 = (acc as u64) * 10 + dig as u64;
            if big > u32::MAX as u64 {
                over = true;
            } else {
                acc = big as u32;
            }
        } else {
            assert(digits_value(next) >= digits_value(prev)) by (nonlinear_arith)
                requires
                    digits_value(next) == digits_value(prev) * 10 + dig,
            ;
        }
        k += 1;
    }
    assert(v@.subrange(start as int, k as int) =~= d);
    if over {
        None
    } else {
        Some(acc)
    }
}

} // verus!
