//! Text helpers: string equality and decimal integer parsing as Rust's `str::parse`
//! accepts it (an optional sign, then one or more ASCII digits, within range).
use vstd::prelude::*;
use vstd::string::StrSliceExecFns;

verus! {

/// Whether two strings hold the same characters.
pub fn str_eq(a: &str, b: &str) -> (eq: bool)
    ensures
        eq == (a@ == b@),
{
    let n = a.unicode_len();
    if n != b.unicode_len() {
        return false;
    }
    let mut i: usize = 0;
    while i < n
        invariant
            n == a@.len() == b@.len(),
            i <= n,
            forall|j: int| 0 <= j < i ==> a@[j] == b@[j],
        decreases n - i,
    {
        if a.get_char(i) != b.get_char(i) {
            return false;
        }
        i = i + 1;
    }
    assert(a@ =~= b@);
    true
}

pub open spec fn is_digit(c: char) -> bool {
    '0' <= c <= '9'
}

pub open spec fn digit_value(c: char) -> int {
    c as int - '0' as int
}

pub open spec fn all_digits(s: Seq<char>) -> bool {
    forall|i: int| 0 <= i < s.len() ==> is_digit(#[trigger] s[i])
}

/// The value of a run of decimal digits.
pub open spec fn decimal_value(s: Seq<char>) -> int
    decreases s.len(),
{
    if s.len() == 0 {
        0
    } else {
        decimal_value(s.drop_last()) * 10 + digit_value(s.last())
    }
}

/// `s` without a leading `+`.
pub open spec fn unsigned_digits(s: Seq<char>) -> Seq<char> {
    if s.len() > 0 && s[0] == '+' {
        s.drop_first()
    } else {
        s
    }
}

/// A `u32` in decimal: an optional `+`, then one or more ASCII digits, at most `u32::MAX`.
pub open spec fn spec_parse_u32(s: Seq<char>) -> Option<u32> {
    let d = unsigned_digits(s);
    if d.len() > 0 && all_digits(d) && decimal_value(d) <= u32::MAX {
        Some(decimal_value(d) as u32)
    } else {
        None
    }
}

/// `s` without a leading `+` or `-`.
pub open spec fn signed_digits(s: Seq<char>) -> Seq<char> {
    if s.len() > 0 && (s[0] == '+' || s[0] == '-') {
        s.drop_first()
    } else {
        s
    }
}

/// The value of a signed decimal: negated when it starts with `-`.
pub open spec fn signed_value(s: Seq<char>) -> int {
    if s.len() > 0 && s[0] == '-' {
        -decimal_value(signed_digits(s))
    } else {
        decimal_value(signed_digits(s))
    }
}

/// An `i64` in decimal: an optional `+` or `-`, then one or more ASCII digits, in range.
pub open spec fn spec_parse_i64(s: Seq<char>) -> Option<i64> {
    let d = signed_digits(s);
    if d.len() > 0 && all_digits(d) && i64::MIN <= signed_value(s) <= i64::MAX {
        Some(signed_value(s) as i64)
    } else {
        None
    }
}

proof fn lemma_decimal_value_nonneg(s: Seq<char>)
    requires
        all_digits(s),
    ensures
        decimal_value(s) >= 0,
    decreases s.len(),
{
    if s.len() > 0 {
        assert(all_digits(s.drop_last()));
        lemma_decimal_value_nonneg(s.drop_last());
        assert(is_digit(s[s.len() - 1]));
    }
}

/// The value of a digit run is at least the value of any of its prefixes.
proof fn lemma_decimal_value_prefix(s: Seq<char>, i: int)
    requires
        all_digits(s),
        0 <= i <= s.len(),
    ensures
        decimal_value(s.take(i)) <= decimal_value(s),
    decreases s.len() - i,
{
    if i < s.len() {
        lemma_decimal_value_prefix(s, i + 1);
        assert(s.take(i + 1).drop_last() =~= s.take(i));
        assert(all_digits(s.take(i)));
        lemma_decimal_value_nonneg(s.take(i));
        assert(is_digit(s[i]));
    } else {
        assert(s.take(i) =~= s);
    }
}

/// Reads the run of digits `s[start..]` into an integer, giving up as soon as the value
/// passes `limit`.
fn read_digits(s: &str, start: usize, n: usize, limit: u128) -> (r: Option<u128>)
    requires
        n == s@.len(),
        start <= n,
        limit <= 0x8000_0000_0000_0000,
    ensures
        r is Some <==> (all_digits(s@.skip(start as int)) && decimal_value(s@.skip(start as int))
            <= limit),
        r matches Some(v) ==> v == decimal_value(s@.skip(start as int)),
{
    let ghost d = s@.skip(start as int);
    let mut acc: u128 = 0;
    let mut i = start;
    while i < n
        invariant
            n == s@.len(),
            start <= i <= n,
            d == s@.skip(start as int),
            limit <= 0x8000_0000_0000_0000,
            all_digits(d.take(i - start)),
            acc == decimal_value(d.take(i - start)),
            acc <= limit,
        decreases n - i,
    {
        let c = s.get_char(i);
        assert(c == d[i - start]);
        if !('0' <= c && c <= '9') {
            return None;
        }
        let digit = (c as u32 - '0' as u32) as u128;
        assert(d.take(i - start + 1).drop_last() =~= d.take(i - start));
        acc = acc * 10 + digit;
        i = i + 1;
        if acc > limit {
            proof {
                assert(all_digits(d.take(i - start)));
                if all_digits(d) {
                    lemma_decimal_value_prefix(d, i - start);
                }
            }
            return None;
        }
    }
    assert(d.take(n - start) =~= d);
    Some(acc)
}

/// Parses a `u32` as `str::parse::<u32>` does.
pub fn parse_u32(s: &str) -> (r: Option<u32>)
    ensures
        r == spec_parse_u32(s@),
{
    let n = s.unicode_len();
    let start: usize = if n > 0 && s.get_char(0) == '+' {
        1
    } else {
        0
    };
    assert(s@.skip(start as int) =~= unsigned_digits(s@));
    if start >= n {
        return None;
    }
    match read_digits(s, start, n, 0xFFFF_FFFF) {
        Some(v) => Some(v as u32),
        None => None,
    }
}

/// Parses an `i64` as `str::parse::<i64>` does.
pub fn parse_i64(s: &str) -> (r: Option<i64>)
    ensures
        r == spec_parse_i64(s@),
{
    let n = s.unicode_len();
    let first = if n > 0 {
        s.get_char(0)
    } else {
        ' '
    };
    let negative = n > 0 && first == '-';
    let start: usize = if n > 0 && (first == '+' || first == '-') {
        1
    } else {
        0
    };
    assert(s@.skip(start as int) =~= signed_digits(s@));
    if start >= n {
        return None;
    }
    let limit: u128 = if negative {
        0x8000_0000_0000_0000
    } else {
        0x7FFF_FFFF_FFFF_FFFF
    };
    match read_digits(s, start, n, limit) {
        Some(v) => {
            if negative {
                if v == 0x8000_0000_0000_0000 {
                    Some(i64::MIN)
                } else {
                    Some(-(v as i64))
                }
            } else {
                Some(v as i64)
            }
        },
        None => None,
    }
}

proof fn lemma_decimal_push(s: Seq<char>, c: char)
    ensures
        decimal_value(s.push(c)) == decimal_value(s) * 10 + (c as int - '0' as int),
{
    assert(s.push(c).drop_last() =~= s);
}

/// How a `u32` numeral reads: nothing from an empty string; a digit `'0'..='9'` reads as
/// itself; one more digit multiplies the value by ten and adds the digit while that fits,
/// and leaves no value past `u32::MAX`; a leading `+` changes nothing; any other
/// character before or after the digits leaves no value.
pub proof fn law_parse_u32(s: Seq<char>, c: char)
    ensures
        spec_parse_u32(Seq::empty()) is None,
        '0' <= c <= '9' ==> spec_parse_u32(seq![c]) == Some((c as int - '0' as int) as u32),
        ({
            let n = spec_parse_u32(s).unwrap() * 10 + (c as int - '0' as int);
            spec_parse_u32(s) is Some && (forall|i: int| 0 <= i < s.len() ==> '0' <= #[trigger] s[i] <= '9')
                && '0' <= c <= '9' ==> spec_parse_u32(s.push(c)) == (if n <= u32::MAX {
                Some(n as u32)
            } else {
                None
            })
        }),
        s.len() > 0 && s[0] != '+' ==> spec_parse_u32(seq!['+'] + s) == spec_parse_u32(s),
        !('0' <= c <= '9') && c != '+' ==> spec_parse_u32(seq![c] + s) is None,
        !('0' <= c <= '9') ==> spec_parse_u32(s.push(c)) is None,
{
    assert(unsigned_digits(Seq::<char>::empty()) =~= Seq::<char>::empty());
    if '0' <= c <= '9' {
        assert(unsigned_digits(seq![c]) =~= seq![c]);
        lemma_decimal_push(Seq::<char>::empty(), c);
        assert(Seq::<char>::empty().push(c) =~= seq![c]);
    }
    if spec_parse_u32(s) is Some && (forall|i: int| 0 <= i < s.len() ==> '0' <= #[trigger] s[i] <= '9')
        && '0' <= c <= '9' {
        assert(unsigned_digits(s) =~= s);
        assert(unsigned_digits(s.push(c)) =~= s.push(c));
        lemma_decimal_push(s, c);
        assert(all_digits(s));
        lemma_decimal_value_nonneg(s);
        assert(spec_parse_u32(s).unwrap() == decimal_value(s));
        assert forall|i: int| 0 <= i < s.push(c).len() implies is_digit(#[trigger] s.push(c)[i]) by {
            if i < s.len() {
                assert(s.push(c)[i] == s[i]);
            }
        }
        assert(all_digits(s.push(c)));
    }
    if s.len() > 0 && s[0] != '+' {
        assert(unsigned_digits(seq!['+'] + s) =~= s);
        assert(unsigned_digits(s) =~= s);
    }
    if !('0' <= c <= '9') && c != '+' {
        assert(unsigned_digits(seq![c] + s) =~= seq![c] + s);
        assert(!is_digit((seq![c] + s)[0]));
    }
    if !('0' <= c <= '9') {
        let t = s.push(c);
        let d = unsigned_digits(t);
        if d.len() > 0 {
            assert(d[d.len() - 1] == c);
        }
    }
}

/// How an `i64` numeral reads: a run of digits reads as the `u32` it spells where that
/// fits; a leading `+` changes nothing and a leading `-` negates; a sign alone, an empty
/// string, or any other character in front leaves no value.
pub proof fn law_parse_i64(s: Seq<char>, c: char)
    ensures
        spec_parse_i64(Seq::empty()) is None,
        spec_parse_i64(seq!['-']) is None,
        spec_parse_i64(seq!['+']) is None,
        (forall|i: int| 0 <= i < s.len() ==> '0' <= #[trigger] s[i] <= '9') ==> {
            &&& spec_parse_u32(s) matches Some(v) ==> spec_parse_i64(s) == Some(v as i64)
            &&& spec_parse_i64(s) matches Some(n) ==> spec_parse_i64(seq!['+'] + s) == Some(n)
                && spec_parse_i64(seq!['-'] + s) == Some((-n) as i64)
        },
        !('0' <= c <= '9') && c != '+' && c != '-' ==> spec_parse_i64(seq![c] + s) is None,
{
    assert(signed_digits(Seq::<char>::empty()) =~= Seq::<char>::empty());
    assert(signed_digits(seq!['-']) =~= Seq::<char>::empty());
    assert(signed_digits(seq!['+']) =~= Seq::<char>::empty());
    if forall|i: int| 0 <= i < s.len() ==> '0' <= #[trigger] s[i] <= '9' {
        assert(all_digits(s));
        if s.len() > 0 {
            assert(s[0] != '+' && s[0] != '-');
        }
        assert(signed_digits(s) =~= s);
        assert(unsigned_digits(s) =~= s);
        assert(signed_digits(seq!['+'] + s) =~= s);
        assert(signed_digits(seq!['-'] + s) =~= s);
        assert((seq!['-'] + s)[0] == '-');
        assert((seq!['+'] + s)[0] == '+');
        lemma_decimal_value_nonneg(s);
    }
    if !('0' <= c <= '9') && c != '+' && c != '-' {
        assert(signed_digits(seq![c] + s) =~= seq![c] + s);
        assert(!is_digit((seq![c] + s)[0]));
    }
}

} // verus!
