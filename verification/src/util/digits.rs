//! Decimal and hexadecimal digits of integers, and decimal parsing.

use vstd::prelude::*;

verus! {

/// The ASCII digit of a value below 16: `0` to `9`, then `a` to `f`.
pub open spec fn digit_byte(d: nat) -> u8 {
    if d < 10 {
        (48 + d) as u8
    } else {
        (87 + d) as u8
    }
}

/// The digits of `n` in the given base, most significant first, without leading zeros.
pub open spec fn digits_bytes(n: nat, base: nat) -> Seq<u8>
    decreases n,
{
    if base < 2 || n < base {
        seq![digit_byte(n)]
    } else {
        proof {
            assert(n / base < n) by (nonlinear_arith)
                requires
                    base >= 2,
                    n >= base,
            ;
        }
        digits_bytes(n / base, base).push(digit_byte(n % base))
    }
}

/// The characters of ASCII bytes.
pub open spec fn ascii_text(b: Seq<u8>) -> Seq<char> {
    Seq::new(b.len(), |i: int| b[i] as char)
}

/// The ASCII digits of `n` in base 10 or 16, most significant first.
pub fn digits(n: u128, base: u128) -> (r: Vec<u8>)
    requires
        base == 10 || base == 16,
    ensures
        r@ == digits_bytes(n as nat, base as nat),
        forall|i: int| 0 <= i < r@.len() ==> r@[i] < 128,
    decreases n,
{
    let d = n % base;
    let digit: u8 = if d < 10 {
        (48 + d) as u8
    } else {
        (87 + d) as u8
    };
    if n < base {
        vec![digit]
    } else {
        let mut v = digits(n / base, base);
        v.push(digit);
        v
    }
}

/// The string of ASCII bytes.
pub fn ascii_string(bytes: &[u8]) -> (r: String)
    requires
        forall|i: int| 0 <= i < bytes@.len() ==> bytes@[i] < 128,
    ensures
        r@ == ascii_text(bytes@),
{
    proof {
        crate::util::fixed::lemma_ascii_bytes_valid_utf8(bytes@);
    }
    match crate::util::fixed::str_from_utf8(bytes) {
        Ok(s) => {
            proof {
                let chars = ascii_text(bytes@);
                assert(vstd::utf8::is_ascii_chars(chars));
                vstd::utf8::is_ascii_chars_encode_utf8(chars);
                assert(vstd::utf8::encode_utf8(chars) =~= bytes@);
                vstd::utf8::encode_utf8_decode_utf8(chars);
                vstd::utf8::encode_utf8_decode_utf8(s@);
            }
            String::from_str(s)
        },
        Err(_) => String::new(),
    }
}


/// Whether every byte is an ASCII decimal digit.
pub open spec fn all_decimal_digits(d: Seq<u8>) -> bool {
    forall|i: int| 0 <= i < d.len() ==> 48 <= #[trigger] d[i] <= 57
}

/// The value of ASCII decimal digits, most significant first.
pub open spec fn decimal_value(d: Seq<u8>) -> nat
    decreases d.len(),
{
    if d.len() == 0 {
        0
    } else {
        decimal_value(d.drop_last()) * 10 + (d.last() - 48) as nat
    }
}

/// The number that decimal text spells: an optional `+`, then one or more decimal digits.
pub open spec fn parse_decimal(b: Seq<u8>) -> Option<nat> {
    let d = if b.len() > 0 && b[0] == 43u8 {
        b.drop_first()
    } else {
        b
    };
    if d.len() > 0 && all_decimal_digits(d) {
        Some(decimal_value(d))
    } else {
        None
    }
}

/// What `u64::from_str` reads from the bytes: an optional `+`, then one or more decimal
/// digits whose value fits in 64 bits.
pub open spec fn parse_u64_decimal(b: Seq<u8>) -> Option<u64> {
    match parse_decimal(b) {
        Some(v) => if v <= u64::MAX {
            Some(v as u64)
        } else {
            None
        },
        None => None,
    }
}

/// What `u128::from_str` reads from the bytes: an optional `+`, then one or more decimal
/// digits whose value fits in 128 bits.
pub open spec fn parse_u128_decimal(b: Seq<u8>) -> Option<u128> {
    match parse_decimal(b) {
        Some(v) => if v <= u128::MAX {
            Some(v as u128)
        } else {
            None
        },
        None => None,
    }
}

/// The value of a prefix of decimal digits is no more than that of all of them.
proof fn lemma_decimal_value_prefix(d: Seq<u8>, n: int)
    requires
        0 <= n <= d.len(),
        all_decimal_digits(d),
    ensures
        decimal_value(d.take(n)) <= decimal_value(d),
    decreases d.len() - n,
{
    if n < d.len() {
        lemma_decimal_value_prefix(d, n + 1);
        assert(d.take(n + 1).drop_last() =~= d.take(n));
    } else {
        assert(d.take(n) =~= d);
    }
}

/// Reads an optional `+` and then decimal digits, as `u128::from_str` does; `None` when there
/// is no digit, a byte is not a digit, or the value does not fit in 128 bits.
pub fn parse_u128(b: &[u8]) -> (r: Option<u128>)
    ensures
        r == parse_u128_decimal(b@),
{
    let start: usize = if b.len() > 0 && b[0] == 43u8 {
        1
    } else {
        0
    };
    let ghost d = if b@.len() > 0 && b@[0] == 43u8 {
        b@.drop_first()
    } else {
        b@
    };
    assert(d =~= b@.subrange(start as int, b@.len() as int));
    if start == b.len() {
        return None;
    }
    let mut acc: u128 = 0;
    let mut i: usize = start;
    proof {
        assert(d.take(0) =~= Seq::<u8>::empty());
    }
    while i < b.len()
        invariant
            start <= i <= b@.len(),
            d == (if b@.len() > 0 && b@[0] == 43u8 {
                b@.drop_first()
            } else {
                b@
            }),
            d =~= b@.subrange(start as int, b@.len() as int),
            all_decimal_digits(d.take(i - start)),
            acc == decimal_value(d.take(i - start)),
        decreases b@.len() - i,
    {
        let c = b[i];
        let ghost k = (i - start) as int;
        proof {
            assert(d[k] == c);
            assert(d.take(k + 1).drop_last() =~= d.take(k));
            assert(d.take(k + 1).last() == c);
        }
        if c < 48 || c > 57 {
            proof {
                assert(!all_decimal_digits(d));
            }
            return None;
        }
        proof {
            assert(all_decimal_digits(d.take(k + 1)));
        }
        match acc.checked_mul(10) {
            Some(m) => match m.checked_add((c - 48) as u128) {
                Some(v) => {
                    acc = v;
                },
                None => {
                    proof {
                        if all_decimal_digits(d) {
                            lemma_decimal_value_prefix(d, k + 1);
                            assert(decimal_value(d.take(k + 1)) == acc * 10 + (c - 48));
                        }
                    }
                    return None;
                },
            },
            None => {
                proof {
                    if all_decimal_digits(d) {
                        lemma_decimal_value_prefix(d, k + 1);
                        assert(decimal_value(d.take(k + 1)) == acc * 10 + (c - 48));
                        assert(acc * 10 + (c - 48) >= acc * 10);
                    }
                }
                return None;
            },
        }
        i += 1;
    }
    proof {
        assert(d.take(i - start) =~= d);
    }
    Some(acc)
}

/// Reads an optional `+` and then decimal digits, as `u64::from_str` does; `None` when there
/// is no digit, a byte is not a digit, or the value does not fit in 64 bits.
pub fn parse_u64(b: &[u8]) -> (r: Option<u64>)
    ensures
        r == parse_u64_decimal(b@),
{
    match parse_u128(b) {
        Some(v) => if v <= u64::MAX as u128 {
            Some(v as u64)
        } else {
            None
        },
        None => None,
    }
}

/// The decimal digits of a number are digits, and read back as the number.
pub proof fn lemma_digits_roundtrip(n: nat)
    ensures
        digits_bytes(n, 10).len() > 0,
        all_decimal_digits(digits_bytes(n, 10)),
        decimal_value(digits_bytes(n, 10)) == n,
    decreases n,
{
    let d = digits_bytes(n, 10);
    if n >= 10 {
        lemma_digits_roundtrip(n / 10);
        assert(d.drop_last() =~= digits_bytes(n / 10, 10));
        assert(d.last() == digit_byte(n % 10));
        assert(forall|i: int| 0 <= i < d.len() - 1 ==> d[i] == d.drop_last()[i]);
        assert(digit_byte(n % 10) - 48 == n % 10);
        assert((n / 10) * 10 + n % 10 == n) by (nonlinear_arith);
        assert(decimal_value(d) == decimal_value(d.drop_last()) * 10 + (d.last() - 48) as nat);
    } else {
        assert(d.drop_last() =~= Seq::<u8>::empty());
        assert(digit_byte(n) - 48 == n);
        assert(decimal_value(d) == decimal_value(d.drop_last()) * 10 + (d.last() - 48) as nat);
    }
}

} // verus!
