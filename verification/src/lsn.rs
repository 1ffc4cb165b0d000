use vstd::prelude::*;

use crate::errors::DecodeError;

verus! {

/// A PostgreSQL log sequence number: a 64-bit byte offset into the WAL
/// stream, carried as the pair of its high and low 32-bit halves and
/// displayed in the standard `HIGH/LOW` hexadecimal form.
#[derive(Debug, Clone, Copy, PartialEq, Eq, Structural)]
pub struct Lsn {
    pub high: u32,
    pub low: u32,
}

/// The 64-bit position an `Lsn` stands for.
pub open spec fn lsn_value(l: Lsn) -> int {
    0x1_0000_0000 * l.high + l.low
}

/// The `Lsn` whose halves are the high and low 32 bits of `value`.
pub open spec fn lsn_of_u64(value: u64) -> Lsn {
    Lsn { high: (value >> 32) as u32, low: (value & 0xFFFF_FFFF) as u32 }
}

impl Lsn {
    /// Pair the two 32-bit halves into an `Lsn`.
    pub fn new(high: u32, low: u32) -> (r: Lsn)
        ensures
            r == (Lsn { high, low }),
    {
        Lsn { high, low }
    }

    /// Combine the two halves into the single 64-bit position.
    pub fn to_u64(&self) -> (r: u64)
        ensures
            r == lsn_value(*self),
    {
        let h = self.high as u64;
        let l = self.low as u64;
        proof {
            assert((h << 32) | l == 0x1_0000_0000 * h + l) by (bit_vector)
                requires
                    h <= 0xFFFF_FFFF && l <= 0xFFFF_FFFF,
            ;
        }
        (h << 32) | l
    }

    /// Split a 64-bit position into its high and low halves.
    pub fn from_u64(value: u64) -> (r: Lsn)
        ensures
            r == lsn_of_u64(value),
            lsn_value(r) == value,
    {
        proof {
            lemma_lsn_u64_round_trip(value);
            assert(value >> 32 <= 0xFFFF_FFFF && (value & 0xFFFF_FFFF) <= 0xFFFF_FFFF)
                by (bit_vector);
        }
        let high = (value >> 32) as u32;
        let low = (value & 0xFFFF_FFFF) as u32;
        Lsn { high, low }
    }
}

/// The uppercase hexadecimal digit for a value below 16.
pub open spec fn hex_digit_char(d: int) -> char {
    if d == 0 {
        '0'
    } else if d == 1 {
        '1'
    } else if d == 2 {
        '2'
    } else if d == 3 {
        '3'
    } else if d == 4 {
        '4'
    } else if d == 5 {
        '5'
    } else if d == 6 {
        '6'
    } else if d == 7 {
        '7'
    } else if d == 8 {
        '8'
    } else if d == 9 {
        '9'
    } else if d == 10 {
        'A'
    } else if d == 11 {
        'B'
    } else if d == 12 {
        'C'
    } else if d == 13 {
        'D'
    } else if d == 14 {
        'E'
    } else {
        'F'
    }
}

/// The value of a hexadecimal digit character, either case, or -1 for any
/// other character.
pub open spec fn hex_char_val(c: char) -> int {
    if c == '0' {
        0
    } else if c == '1' {
        1
    } else if c == '2' {
        2
    } else if c == '3' {
        3
    } else if c == '4' {
        4
    } else if c == '5' {
        5
    } else if c == '6' {
        6
    } else if c == '7' {
        7
    } else if c == '8' {
        8
    } else if c == '9' {
        9
    } else if c == 'A' || c == 'a' {
        10
    } else if c == 'B' || c == 'b' {
        11
    } else if c == 'C' || c == 'c' {
        12
    } else if c == 'D' || c == 'd' {
        13
    } else if c == 'E' || c == 'e' {
        14
    } else if c == 'F' || c == 'f' {
        15
    } else {
        -1
    }
}

/// Whether `c` is a hexadecimal digit in either case.
pub open spec fn is_hex_digit(c: char) -> bool {
    hex_char_val(c) >= 0
}

/// Whether every character of `s` is a hexadecimal digit.
pub open spec fn all_hex_digits(s: Seq<char>) -> bool {
    forall|i: int| 0 <= i < s.len() ==> is_hex_digit(#[trigger] s[i])
}

/// The shortest uppercase hexadecimal spelling of a nonnegative number:
/// most significant digit first, no leading zeros, `0` spelled `"0"`.
pub open spec fn hex_str(n: int) -> Seq<char>
    decreases n,
{
    if n < 16 {
        seq![hex_digit_char(n)]
    } else {
        hex_str(n / 16).push(hex_digit_char(n % 16))
    }
}

/// The number a sequence of hexadecimal digit characters spells.
pub open spec fn hex_val(s: Seq<char>) -> int
    decreases s.len(),
{
    if s.len() == 0 {
        0
    } else {
        16 * hex_val(s.drop_last()) + hex_char_val(s.last())
    }
}

/// What parsing one half of a log-position string yields: the spelled
/// value, if the text is nonempty, entirely hexadecimal, and in range for
/// a 32-bit half.
pub open spec fn parse_hex_u32(s: Seq<char>) -> Option<u32> {
    if s.len() > 0 && all_hex_digits(s) && hex_val(s) <= u32::MAX {
        Some(hex_val(s) as u32)
    } else {
        None
    }
}

/// The index of the first `/` in `s`, or -1 if there is none.
pub open spec fn find_slash(s: Seq<char>) -> int
    decreases s.len(),
{
    if s.len() == 0 {
        -1
    } else if s[0] == '/' {
        0
    } else {
        let r = find_slash(s.drop_first());
        if r < 0 {
            -1
        } else {
            r + 1
        }
    }
}

/// The text form of an `Lsn`: both halves in uppercase hex, joined by `/`,
/// without leading zero padding.
pub open spec fn lsn_text(l: Lsn) -> Seq<char> {
    hex_str(l.high as int) + seq!['/'] + hex_str(l.low as int)
}

/// What parsing a log-position string yields: split at the first `/`, both
/// sides read as 32-bit hex numbers; `None` on a missing separator,
/// non-hexadecimal text, an empty side, or an out-of-range value.
pub open spec fn parse_lsn_text(s: Seq<char>) -> Option<Lsn> {
    let i = find_slash(s);
    if i < 0 {
        None
    } else {
        let h = parse_hex_u32(s.subrange(0, i));
        let l = parse_hex_u32(s.subrange(i + 1, s.len() as int));
        if h is Some && l is Some {
            Some(Lsn { high: h->Some_0, low: l->Some_0 })
        } else {
            None
        }
    }
}

impl PartialOrd for Lsn {
    /// Positions are ordered exactly as the 64-bit values they combine to.
    fn partial_cmp(&self, other: &Lsn) -> (r: Option<core::cmp::Ordering>) {
        if self.high < other.high {
            Some(core::cmp::Ordering::Less)
        } else if self.high > other.high {
            Some(core::cmp::Ordering::Greater)
        } else if self.low < other.low {
            Some(core::cmp::Ordering::Less)
        } else if self.low > other.low {
            Some(core::cmp::Ordering::Greater)
        } else {
            Some(core::cmp::Ordering::Equal)
        }
    }
}

impl vstd::std_specs::cmp::PartialOrdSpecImpl for Lsn {
    open spec fn obeys_partial_cmp_spec() -> bool {
        true
    }

    open spec fn partial_cmp_spec(&self, other: &Lsn) -> Option<core::cmp::Ordering> {
        if lsn_value(*self) < lsn_value(*other) {
            Some(core::cmp::Ordering::Less)
        } else if lsn_value(*self) > lsn_value(*other) {
            Some(core::cmp::Ordering::Greater)
        } else {
            Some(core::cmp::Ordering::Equal)
        }
    }
}

/// Splitting a 64-bit position into halves loses nothing: recombining the
/// halves gives back the value.
pub proof fn lemma_lsn_u64_round_trip(value: u64)
    ensures
        lsn_value(lsn_of_u64(value)) == value,
{
    assert(0x1_0000_0000 * ((value >> 32) as u32) + ((value & 0xFFFF_FFFF) as u32) == value)
        by (bit_vector);
}

/// Recombining the halves of an `Lsn` and splitting again changes nothing.
pub proof fn lemma_lsn_split_round_trip(l: Lsn)
    ensures
        lsn_of_u64(lsn_value(l) as u64) == l,
{
    let h = l.high;
    let lo = l.low;
    assert(((0x1_0000_0000 * h + lo) as u64) >> 32 == h && ((0x1_0000_0000 * h + lo) as u64)
        & 0xFFFF_FFFF == lo) by (bit_vector);
}

/// The one-character string for a hexadecimal digit value.
fn hex_digit_to_str(d: u32) -> (r: &'static str)
    requires
        d < 16,
    ensures
        r@ == seq![hex_digit_char(d as int)],
{
    proof {
        reveal_strlit("0");
        reveal_strlit("1");
        reveal_strlit("2");
        reveal_strlit("3");
        reveal_strlit("4");
        reveal_strlit("5");
        reveal_strlit("6");
        reveal_strlit("7");
        reveal_strlit("8");
        reveal_strlit("9");
        reveal_strlit("A");
        reveal_strlit("B");
        reveal_strlit("C");
        reveal_strlit("D");
        reveal_strlit("E");
        reveal_strlit("F");
    }
    let r: &'static str = if d == 0 {
        "0"
    } else if d == 1 {
        "1"
    } else if d == 2 {
        "2"
    } else if d == 3 {
        "3"
    } else if d == 4 {
        "4"
    } else if d == 5 {
        "5"
    } else if d == 6 {
        "6"
    } else if d == 7 {
        "7"
    } else if d == 8 {
        "8"
    } else if d == 9 {
        "9"
    } else if d == 10 {
        "A"
    } else if d == 11 {
        "B"
    } else if d == 12 {
        "C"
    } else if d == 13 {
        "D"
    } else if d == 14 {
        "E"
    } else {
        "F"
    };
    proof {
        assert(r@ =~= seq![hex_digit_char(d as int)]);
    }
    r
}

/// The shortest uppercase hexadecimal spelling of `n`.
fn u32_to_hex(n: u32) -> (s: String)
    ensures
        s@ == hex_str(n as int),
    decreases n,
{
    if n < 16 {
        String::from_str(hex_digit_to_str(n))
    } else {
        let mut s = u32_to_hex(n / 16);
        s.append(hex_digit_to_str(n % 16));
        proof {
            assert(s@ =~= hex_str(n as int));
        }
        s
    }
}

impl Lsn {
    /// The standard `HIGH/LOW` display form: both halves in uppercase hex
    /// with no leading zero padding.
    pub fn format(&self) -> (s: String)
        ensures
            s@ == lsn_text(*self),
    {
        let mut s = u32_to_hex(self.high);
        proof {
            reveal_strlit("/");
        }
        s.append("/");
        let low = u32_to_hex(self.low);
        s.append(low.as_str());
        proof {
            assert(s@ =~= lsn_text(*self));
        }
        s
    }
}

/// Every character of a hexadecimal spelling is a hex digit, and there is
/// at least one.
pub proof fn lemma_hex_str_digits(n: int)
    requires
        n >= 0,
    ensures
        hex_str(n).len() >= 1,
        all_hex_digits(hex_str(n)),
    decreases n,
{
    if n < 16 {
        assert(is_hex_digit(hex_digit_char(n)));
    } else {
        lemma_hex_str_digits(n / 16);
        let x = hex_str(n / 16);
        let c = hex_digit_char(n % 16);
        assert(is_hex_digit(c));
        assert forall|i: int| 0 <= i < x.push(c).len() implies is_hex_digit(
            #[trigger] x.push(c)[i],
        ) by {
            if i < x.len() {
                assert(x.push(c)[i] == x[i]);
            } else {
                assert(x.push(c)[i] == c);
            }
        }
    }
}

/// Reading back the hexadecimal spelling of a number gives the number.
pub proof fn lemma_hex_str_val(n: int)
    requires
        n >= 0,
    ensures
        hex_val(hex_str(n)) == n,
    decreases n,
{
    if n < 16 {
        let s = hex_str(n);
        assert(s.len() == 1);
        assert(s.last() == hex_digit_char(n));
        assert(s.drop_last() =~= Seq::<char>::empty());
        assert(hex_val(Seq::<char>::empty()) == 0);
        assert(hex_val(s) == 16 * hex_val(s.drop_last()) + hex_char_val(s.last()));
        assert(hex_char_val(hex_digit_char(n)) == n);
    } else {
        lemma_hex_str_val(n / 16);
        let x = hex_str(n / 16);
        let c = hex_digit_char(n % 16);
        assert(hex_str(n) == x.push(c));
        assert(x.push(c).len() == x.len() + 1);
        assert(x.push(c).drop_last() =~= x);
        assert(x.push(c).last() == c);
        assert(hex_val(x.push(c)) == 16 * hex_val(x) + hex_char_val(c));
        assert(hex_char_val(hex_digit_char(n % 16)) == n % 16);
        assert(16 * (n / 16) + n % 16 == n) by (nonlinear_arith);
    }
}

/// The number a digit string spells is nonnegative.
proof fn lemma_hex_val_nonneg(s: Seq<char>)
    requires
        all_hex_digits(s),
    ensures
        hex_val(s) >= 0,
    decreases s.len(),
{
    if s.len() > 0 {
        assert forall|i: int| 0 <= i < s.drop_last().len() implies is_hex_digit(
            #[trigger] s.drop_last()[i],
        ) by {
            assert(s.drop_last()[i] == s[i]);
        }
        lemma_hex_val_nonneg(s.drop_last());
        assert(is_hex_digit(s.last()));
    }
}

/// Extending a digit prefix by one character multiplies its value by 16
/// and adds the character's digit value.
proof fn lemma_hex_val_take_step(s: Seq<char>, i: int)
    requires
        0 <= i < s.len(),
    ensures
        hex_val(s.take(i + 1)) == 16 * hex_val(s.take(i)) + hex_char_val(s[i]),
{
    assert(s.take(i + 1).drop_last() =~= s.take(i));
    assert(s.take(i + 1).last() == s[i]);
}

/// For an all-hexadecimal string, longer prefixes spell numbers at least
/// as large.
proof fn lemma_hex_val_take_mono(s: Seq<char>, i: int, j: int)
    requires
        0 <= i <= j <= s.len(),
        all_hex_digits(s),
    ensures
        hex_val(s.take(i)) <= hex_val(s.take(j)),
    decreases j - i,
{
    if i < j {
        lemma_hex_val_take_mono(s, i, j - 1);
        lemma_hex_val_take_step(s, j - 1);
        assert forall|k: int| 0 <= k < s.take(j - 1).len() implies is_hex_digit(
            #[trigger] s.take(j - 1)[k],
        ) by {
            assert(s.take(j - 1)[k] == s[k]);
        }
        lemma_hex_val_nonneg(s.take(j - 1));
        assert(is_hex_digit(s[j - 1]));
    }
}

/// What `find_slash` returns: the index of the first `/`, with nothing
/// but other characters before it, or -1 when there is no `/` at all.
proof fn lemma_find_slash_spec(s: Seq<char>)
    ensures
        find_slash(s) == -1 ==> (forall|i: int| 0 <= i < s.len() ==> s[i] != '/'),
        find_slash(s) >= 0 ==> 0 <= find_slash(s) < s.len() && s[find_slash(s)] == '/' && (
        forall|i: int| 0 <= i < find_slash(s) ==> s[i] != '/'),
    decreases s.len(),
{
    if s.len() > 0 && s[0] != '/' {
        let t = s.drop_first();
        lemma_find_slash_spec(t);
        if find_slash(t) == -1 {
            assert forall|i: int| 0 <= i < s.len() implies s[i] != '/' by {
                if i > 0 {
                    assert(t[i - 1] == s[i]);
                }
            }
        } else {
            assert(s[find_slash(s)] == t[find_slash(t)]);
            assert forall|i: int| 0 <= i < find_slash(s) implies s[i] != '/' by {
                if i > 0 {
                    assert(t[i - 1] == s[i]);
                }
            }
        }
    }
}

/// A position that holds `/` with none before it is exactly what
/// `find_slash` returns.
proof fn lemma_find_slash_at(s: Seq<char>, k: int)
    requires
        0 <= k < s.len(),
        s[k] == '/',
        forall|j: int| 0 <= j < k ==> s[j] != '/',
    ensures
        find_slash(s) == k,
{
    lemma_find_slash_spec(s);
    if find_slash(s) == -1 {
        assert(s[k] != '/');
    } else if find_slash(s) < k {
        assert(s[find_slash(s)] != '/');
    } else if find_slash(s) > k {
        assert(s[k] != '/');
    }
}

/// The digit value of a hexadecimal character, or `None` for any other
/// character.
fn hex_char_value(c: char) -> (r: Option<u8>)
    ensures
        r is Some <==> is_hex_digit(c),
        r is Some ==> r->Some_0 == hex_char_val(c),
{
    if c == '0' {
        Some(0)
    } else if c == '1' {
        Some(1)
    } else if c == '2' {
        Some(2)
    } else if c == '3' {
        Some(3)
    } else if c == '4' {
        Some(4)
    } else if c == '5' {
        Some(5)
    } else if c == '6' {
        Some(6)
    } else if c == '7' {
        Some(7)
    } else if c == '8' {
        Some(8)
    } else if c == '9' {
        Some(9)
    } else if c == 'A' || c == 'a' {
        Some(10)
    } else if c == 'B' || c == 'b' {
        Some(11)
    } else if c == 'C' || c == 'c' {
        Some(12)
    } else if c == 'D' || c == 'd' {
        Some(13)
    } else if c == 'E' || c == 'e' {
        Some(14)
    } else if c == 'F' || c == 'f' {
        Some(15)
    } else {
        None
    }
}

/// Parse the characters of `s` between `from` and `to` as one 32-bit
/// hexadecimal number.
fn parse_hex_part(s: &str, from: usize, to: usize) -> (r: Option<u32>)
    requires
        from <= to <= s@.len(),
    ensures
        r == parse_hex_u32(s@.subrange(from as int, to as int)),
{
    let ghost sub = s@.subrange(from as int, to as int);
    if from == to {
        return None;
    }
    let mut acc: u64 = 0;
    let mut i = from;
    while i < to
        invariant
            from <= i <= to <= s@.len(),
            from < to,
            sub == s@.subrange(from as int, to as int),
            all_hex_digits(sub.take(i - from)),
            acc == hex_val(sub.take(i - from)),
            acc <= 0xFFFF_FFFF,
        decreases to - i,
    {
        let c = s.get_char(i);
        proof {
            assert(sub[i - from] == s@[i as int]);
        }
        match hex_char_value(c) {
            None => {
                proof {
                    assert(!is_hex_digit(sub[i - from]));
                }
                return None;
            },
            Some(d) => {
                proof {
                    lemma_hex_val_take_step(sub, i - from);
                    assert forall|k: int| 0 <= k < sub.take(i - from + 1).len() implies
                        is_hex_digit(#[trigger] sub.take(i - from + 1)[k]) by {
                        assert(sub.take(i - from + 1)[k] == sub[k]);
                        if k < i - from {
                            assert(sub.take(i - from)[k] == sub[k]);
                        }
                    }
                }
                acc = acc * 16 + d as u64;
                if acc > 0xFFFF_FFFF {
                    proof {
                        if all_hex_digits(sub) {
                            lemma_hex_val_take_mono(sub, i - from + 1, sub.len() as int);
                            assert(sub.take(sub.len() as int) =~= sub);
                        }
                    }
                    return None;
                }
                i = i + 1;
            },
        }
    }
    proof {
        assert(sub.take(sub.len() as int) =~= sub);
    }
    Some(acc as u32)
}

impl Lsn {
    /// Parse the standard `HIGH/LOW` text form: the text up to the first
    /// `/` and the text after it are read as 32-bit hexadecimal numbers.
    /// A missing separator, an empty or non-hexadecimal half, or a half
    /// too large for 32 bits is `MalformedLogPosition`.
    pub fn parse(s: &str) -> (r: Result<Lsn, DecodeError>)
        ensures
            r is Ok <==> parse_lsn_text(s@) is Some,
            r is Ok ==> r->Ok_0 == parse_lsn_text(s@)->Some_0,
            r is Err ==> r->Err_0 == DecodeError::MalformedLogPosition,
    {
        let len = s.unicode_len();
        let mut i: usize = 0;
        while i < len
            invariant
                i <= len,
                len == s@.len(),
                forall|j: int| 0 <= j < i ==> s@[j] != '/',
            ensures
                i <= len,
                len == s@.len(),
                forall|j: int| 0 <= j < i ==> s@[j] != '/',
                i < len ==> s@[i as int] == '/',
            decreases len - i,
        {
            if s.get_char(i) == '/' {
                break ;
            }
            i = i + 1;
        }
        if i == len {
            proof {
                lemma_find_slash_spec(s@);
                if find_slash(s@) >= 0 {
                    assert(s@[find_slash(s@)] != '/');
                }
            }
            return Err(DecodeError::MalformedLogPosition);
        }
        proof {
            lemma_find_slash_at(s@, i as int);
        }
        let high = parse_hex_part(s, 0, i);
        let low = parse_hex_part(s, i + 1, len);
        match (high, low) {
            (Some(h), Some(l)) => Ok(Lsn { high: h, low: l }),
            _ => Err(DecodeError::MalformedLogPosition),
        }
    }
}

/// Formatting a log position and parsing the text back gives the same
/// position, whatever its value.
pub proof fn lemma_lsn_text_round_trip(l: Lsn)
    ensures
        parse_lsn_text(lsn_text(l)) == Some(l),
{
    let a = hex_str(l.high as int);
    let b = hex_str(l.low as int);
    let s = lsn_text(l);
    lemma_hex_str_digits(l.high as int);
    lemma_hex_str_digits(l.low as int);
    lemma_hex_str_val(l.high as int);
    lemma_hex_str_val(l.low as int);
    assert(s[a.len() as int] == '/');
    assert forall|j: int| 0 <= j < a.len() implies s[j] != '/' by {
        assert(s[j] == a[j]);
        assert(is_hex_digit(a[j]));
    }
    lemma_find_slash_at(s, a.len() as int);
    assert(s.subrange(0, a.len() as int) =~= a);
    assert(s.subrange(a.len() as int + 1, s.len() as int) =~= b);
    assert(parse_hex_u32(a) == Some(l.high));
    assert(parse_hex_u32(b) == Some(l.low));
}

} // verus!
