//! Parsing integers from text, as `str::parse` and `from_str_radix` do.
use vstd::prelude::*;

verus! {

pub open spec fn is_dec_digit(c: char) -> bool {
    '0' <= c && c <= '9'
}

pub open spec fn is_hex_digit(c: char) -> bool {
    ('0' <= c && c <= '9') || ('a' <= c && c <= 'f') || ('A' <= c && c <= 'F')
}

pub open spec fn is_digit_in(c: char, radix: nat) -> bool {
    if radix == 16 {
        is_hex_digit(c)
    } else {
        is_dec_digit(c)
    }
}

/// The value of one digit character.
pub open spec fn digit_value(c: char) -> nat {
    if '0' <= c && c <= '9' {
        (c as u32 - 48) as nat
    } else if 'a' <= c && c <= 'f' {
        (c as u32 - 87) as nat
    } else {
        (c as u32 - 55) as nat
    }
}

/// The value of a sequence of digits in base `radix`.
pub open spec fn digits_value(s: Seq<char>, radix: nat) -> nat
    decreases s.len(),
{
    if s.len() == 0 {
        0
    } else {
        digits_value(s.drop_last(), radix) * radix + digit_value(s.last())
    }
}

pub open spec fn all_digits(s: Seq<char>, radix: nat) -> bool {
    forall|i: int| 0 <= i < s.len() ==> is_digit_in(#[trigger] s[i], radix)
}

/// `s` without a leading `+`.
pub open spec fn unsigned_body(s: Seq<char>) -> Seq<char> {
    if s.len() > 0 && s[0] == '+' {
        s.drop_first()
    } else {
        s
    }
}

/// What `from_str_radix` of an unsigned type whose largest value is `max`
/// returns: the value of the digits after an optional `+`, when there is at
/// least one digit, every character is a digit and the value is at most `max`.
pub open spec fn parse_unsigned_spec(s: Seq<char>, radix: nat, max: nat) -> Option<nat> {
    let b = unsigned_body(s);
    if b.len() > 0 && all_digits(b, radix) && digits_value(b, radix) <= max {
        Some(digits_value(b, radix))
    } else {
        None
    }
}

/// `u32::from_str` (`str::parse::<u32>`).
pub open spec fn parse_u32_spec(s: Seq<char>) -> Option<u32> {
    match parse_unsigned_spec(s, 10, u32::MAX as nat) {
        Some(v) => Some(v as u32),
        None => None,
    }
}

/// What `str::parse` of a signed type whose range is `-(max+1) ..= max`
/// returns: an optional sign, then at least one decimal digit.
pub open spec fn parse_signed_spec(s: Seq<char>, max: nat) -> Option<int> {
    if s.len() > 0 && s[0] == '-' {
        let b = s.drop_first();
        if b.len() > 0 && all_digits(b, 10) && digits_value(b, 10) <= max + 1 {
            Some(-digits_value(b, 10))
        } else {
            None
        }
    } else {
        match parse_unsigned_spec(s, 10, max) {
            Some(v) => Some(v as int),
            None => None,
        }
    }
}

proof fn lemma_digits_value_prefix(s: Seq<char>, radix: nat, i: int)
    requires
        0 <= i <= s.len(),
        radix >= 1,
    ensures
        digits_value(s.take(i), radix) <= digits_value(s, radix),
    decreases s.len() - i,
{
    if i < s.len() {
        lemma_digits_value_prefix(s.drop_last(), radix, i);
        assert(s.drop_last().take(i) =~= s.take(i));
        let v = digits_value(s.drop_last(), radix);
        assert(v * radix >= v) by (nonlinear_arith)
            requires
                radix >= 1,
        ;
    } else {
        assert(s.take(i) =~= s);
    }
}

pub fn digit_of(c: char, radix: u64) -> (r: Option<u64>)
    requires
        radix == 10 || radix == 16,
    ensures
        r is Some <==> is_digit_in(c, radix as nat),
        r matches Some(d) ==> d == digit_value(c) && d < radix,
{
    if '0' <= c && c <= '9' {
        Some((c as u32 - 48) as u64)
    } else if radix == 16 && 'a' <= c && c <= 'f' {
        Some((c as u32 - 87) as u64)
    } else if radix == 16 && 'A' <= c && c <= 'F' {
        Some((c as u32 - 55) as u64)
    } else {
        None
    }
}

/// The digits `s[from..]` in base `radix` when they are all digits, there is
/// at least one and the value is at most `max`.
fn parse_digits(s: &[char], from: usize, radix: u64, max: u64) -> (r: Option<u64>)
    requires
        radix == 10 || radix == 16,
        from <= s.len(),
    ensures
        ({
            let b = s@.skip(from as int);
            match r {
                Some(v) => b.len() > 0 && all_digits(b, radix as nat) && digits_value(
                    b,
                    radix as nat,
                ) <= max && v == digits_value(b, radix as nat),
                None => !(b.len() > 0 && all_digits(b, radix as nat) && digits_value(
                    b,
                    radix as nat,
                ) <= max),
            }
        }),
{
    let ghost b = s@.skip(from as int);
    if from == s.len() {
        return None;
    }
    let mut acc: u64 = 0;
    let mut i: usize = from;
    while i < s.len()
        invariant
            from <= i <= s.len(),
            radix == 10 || radix == 16,
            b == s@.skip(from as int),
            acc <= max,
            acc == digits_value(b.take(i - from), radix as nat),
            all_digits(b.take(i - from), radix as nat),
        decreases s.len() - i,
    {
        let c = s[i];
        let ghost k = i - from;
        proof {
            assert(b.take(k + 1).drop_last() =~= b.take(k));
            assert(b[k] == c);
        }
        match digit_of(c, radix) {
            None => {
                assert(!is_digit_in(b[k], radix as nat));
                return None;
            },
            Some(d) => {
                if d > max {
                    proof {
                        lemma_digits_value_prefix(b, radix as nat, k + 1);
                    }
                    return None;
                }
                let q: u64 = (max - d) / radix;
                if acc > q {
                    proof {
                        assert(acc * radix + d > max) by (nonlinear_arith)
                            requires
                                acc > q,
                                q as int == (max as int - d as int) / (radix as int),
                                radix > 0,
                                d <= max,
                        ;
                        lemma_digits_value_prefix(b, radix as nat, k + 1);
                    }
                    return None;
                }
                assert(acc * radix + d <= max) by (nonlinear_arith)
                    requires
                        acc <= q,
                        q as int == (max as int - d as int) / (radix as int),
                        radix > 0,
                        d <= max,
                ;
                acc = acc * radix + d;
                assert(all_digits(b.take(k + 1), radix as nat)) by {
                    assert forall|j: int| 0 <= j < k + 1 implies is_digit_in(
                        #[trigger] b.take(k + 1)[j],
                        radix as nat,
                    ) by {
                        if j < k {
                            assert(b.take(k + 1)[j] == b.take(k)[j]);
                        }
                    }
                }
            },
        }
        i = i + 1;
    }
    assert(b.take(s.len() - from) =~= b);
    Some(acc)
}

/// `from_str_radix` for an unsigned type whose largest value is `max`.
pub fn parse_unsigned(s: &[char], radix: u64, max: u64) -> (r: Option<u64>)
    requires
        radix == 10 || radix == 16,
    ensures
        match r {
            Some(v) => parse_unsigned_spec(s@, radix as nat, max as nat) == Some(v as nat),
            None => parse_unsigned_spec(s@, radix as nat, max as nat) is None,
        },
{
    if s.len() > 0 && s[0] == '+' {
        assert(s@.skip(1) =~= s@.drop_first());
        parse_digits(s, 1, radix, max)
    } else {
        assert(s@.skip(0) =~= s@);
        parse_digits(s, 0, radix, max)
    }
}

/// `str::parse::<u32>`.
pub fn parse_u32(s: &[char]) -> (r: Option<u32>)
    ensures
        r == parse_u32_spec(s@),
{
    match parse_unsigned(s, 10, 0xffff_ffff) {
        Some(v) => Some(v as u32),
        None => None,
    }
}

/// `u32::from_str_radix(s, 16)`.
pub fn parse_hex_u32(s: &[char]) -> (r: Option<u32>)
    ensures
        match r {
            Some(v) => parse_unsigned_spec(s@, 16, u32::MAX as nat) == Some(v as nat),
            None => parse_unsigned_spec(s@, 16, u32::MAX as nat) is None,
        },
{
    match parse_unsigned(s, 16, 0xffff_ffff) {
        Some(v) => Some(v as u32),
        None => None,
    }
}

/// `u16::from_str_radix(s, 16)`.
pub fn parse_hex_u16(s: &[char]) -> (r: Option<u16>)
    ensures
        match r {
            Some(v) => parse_unsigned_spec(s@, 16, u16::MAX as nat) == Some(v as nat),
            None => parse_unsigned_spec(s@, 16, u16::MAX as nat) is None,
        },
{
    match parse_unsigned(s, 16, 0xffff) {
        Some(v) => Some(v as u16),
        None => None,
    }
}

/// `str::parse` for a signed type whose largest value is `max`.
pub fn parse_signed(s: &[char], max: u64) -> (r: Option<i128>)
    requires
        max < u64::MAX,
    ensures
        match r {
            Some(v) => parse_signed_spec(s@, max as nat) == Some(v as int),
            None => parse_signed_spec(s@, max as nat) is None,
        },
{
    if s.len() > 0 && s[0] == '-' {
        assert(s@.skip(1) =~= s@.drop_first());
        match parse_digits(s, 1, 10, max + 1) {
            Some(v) => Some(-(v as i128)),
            None => None,
        }
    } else {
        match parse_unsigned(s, 10, max) {
            Some(v) => Some(v as i128),
            None => None,
        }
    }
}

/// `str::parse::<i32>`.
pub fn parse_i32(s: &[char]) -> (r: Option<i32>)
    ensures
        match r {
            Some(v) => parse_signed_spec(s@, i32::MAX as nat) == Some(v as int),
            None => parse_signed_spec(s@, i32::MAX as nat) is None,
        },
{
    match parse_signed(s, 0x7fff_ffff) {
        Some(v) => Some(v as i32),
        None => None,
    }
}

/// `str::parse::<i64>`.
pub fn parse_i64(s: &[char]) -> (r: Option<i64>)
    ensures
        match r {
            Some(v) => parse_signed_spec(s@, i64::MAX as nat) == Some(v as int),
            None => parse_signed_spec(s@, i64::MAX as nat) is None,
        },
{
    match parse_signed(s, 0x7fff_ffff_ffff_ffff) {
        Some(v) => Some(v as i64),
        None => None,
    }
}

} // verus!
