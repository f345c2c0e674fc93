//! The size parser: turns a token such as `10G` or `2T` into a byte
//! count, and checks the argument list of a run.

use vstd::prelude::*;

use crate::errors::TreeError;

verus! {

/// Bytes in a gigabyte (1024^3).
pub const GIGABYTE: u64 = 1024 * 1024 * 1024;

/// Bytes in a terabyte (1024^4).
pub const TERABYTE: u64 = 1024 * 1024 * 1024 * 1024;

/// Whether `c` is one of the ten ASCII decimal digits.
pub open spec fn is_ascii_digit(c: char) -> bool {
    '0' as int <= c as int <= '9' as int
}

/// The numeric value of a decimal digit character.
pub open spec fn digit_value(c: char) -> int {
    c as int - '0' as int
}

/// Whether every character of `s` is a decimal digit.
pub open spec fn all_digits(s: Seq<char>) -> bool {
    forall|i: int| 0 <= i < s.len() ==> is_ascii_digit(#[trigger] s[i])
}

/// The value of a decimal digit string, most significant digit first.
pub open spec fn digits_value(s: Seq<char>) -> int
    decreases s.len(),
{
    if s.len() == 0 {
        0
    } else {
        digits_value(s.drop_last()) * 10 + digit_value(s.last())
    }
}

/// The digits of a magnitude prefix: a single leading plus sign, as the
/// standard unsigned-integer parser admits, is dropped.
pub open spec fn magnitude_digits(s: Seq<char>) -> Seq<char> {
    if s.len() > 0 && s[0] == '+' {
        s.skip(1)
    } else {
        s
    }
}

/// Whether `s` is a well-formed magnitude: at least one digit, and
/// nothing but digits after an optional leading plus sign.
pub open spec fn valid_magnitude(s: Seq<char>) -> bool {
    magnitude_digits(s).len() > 0 && all_digits(magnitude_digits(s))
}

/// The byte multiplier of a unit suffix (only `G` and `T` are ever used).
pub open spec fn unit_multiplier(c: char) -> int {
    if c == 'G' {
        GIGABYTE as int
    } else {
        TERABYTE as int
    }
}

/// The byte count denoted by a size token: a magnitude followed by a
/// `G` or `T` suffix, provided the product fits in 64 bits. Everything
/// else denotes nothing.
pub open spec fn size_in_bytes(s: Seq<char>) -> Option<int> {
    if s.len() >= 1 && (s.last() == 'G' || s.last() == 'T') && valid_magnitude(s.drop_last()) {
        let v = digits_value(magnitude_digits(s.drop_last())) * unit_multiplier(s.last());
        if v <= u64::MAX {
            Option::Some(v)
        } else {
            Option::None
        }
    } else {
        Option::None
    }
}

/// A digit string never denotes a negative value.
proof fn lemma_digits_value_nonneg(s: Seq<char>)
    requires
        all_digits(s),
    ensures
        digits_value(s) >= 0,
    decreases s.len(),
{
    if s.len() > 0 {
        assert forall|i: int| 0 <= i < s.drop_last().len() implies is_ascii_digit(
            #[trigger] s.drop_last()[i],
        ) by {
            assert(s.drop_last()[i] == s[i]);
        }
        lemma_digits_value_nonneg(s.drop_last());
    }
}

/// Every token made of digits followed by a `G` or `T` suffix denotes
/// its magnitude times 1024^3 or 1024^4 respectively, provided that
/// byte count fits in 64 bits; past 64 bits it denotes nothing.
pub proof fn lemma_valid_token_value(ds: Seq<char>, unit: char)
    requires
        ds.len() > 0,
        all_digits(ds),
        unit == 'G' || unit == 'T',
    ensures
        digits_value(ds) * unit_multiplier(unit) <= u64::MAX ==> size_in_bytes(ds.push(unit))
            == Option::Some(digits_value(ds) * unit_multiplier(unit)),
        digits_value(ds) * unit_multiplier(unit) > u64::MAX ==> size_in_bytes(ds.push(unit))
            is None,
{
    let s = ds.push(unit);
    assert(s.last() == unit);
    assert(s.drop_last() =~= ds);
    assert(is_ascii_digit(ds[0]));
    assert(ds[0] != '+');
    assert(magnitude_digits(ds) =~= ds);
}

/// Every other string denotes nothing: one without a `G` or `T` suffix,
/// or whose magnitude holds anything but digits (a letter, a minus sign)
/// after an optional leading plus sign.
pub proof fn lemma_invalid_token(s: Seq<char>)
    requires
        s.len() == 0 || !(s.last() == 'G' || s.last() == 'T') || !valid_magnitude(s.drop_last()),
    ensures
        size_in_bytes(s) is None,
{
}

/// Converts a size token to its byte count: a non-negative integer
/// magnitude followed by `G` (gigabytes) or `T` (terabytes). Any other
/// shape, and a byte count beyond 64 bits, is an invalid format.
pub fn validate_size(size: &str) -> (r: Result<u64, TreeError>)
    ensures
        match r {
            Ok(v) => size_in_bytes(size@) == Option::Some(v as int),
            Err(e) => size_in_bytes(size@) is None && e == TreeError::InvalidSizeFormat,
        },
{
    let len = size.unicode_len();
    if len == 0 {
        return Err(TreeError::InvalidSizeFormat);
    }
    let last = size.get_char(len - 1);
    let mult: u64 = if last == 'G' {
        GIGABYTE
    } else if last == 'T' {
        TERABYTE
    } else {
        return Err(TreeError::InvalidSizeFormat);
    };
    let first = size.get_char(0);
    let start: usize = if first == '+' {
        1
    } else {
        0
    };
    let ghost md: Seq<char> = magnitude_digits(size@.drop_last());
    proof {
        assert(size@.drop_last() =~= size@.subrange(0, len - 1));
        if start == 1 {
            // the unit suffix is not a plus sign, so the token has at
            // least two characters and the dropped sign is its first
            assert(size@.drop_last().len() >= 1);
            assert(size@.drop_last()[0] == '+');
            assert(md =~= size@.subrange(1, len - 1));
        } else {
            if size@.drop_last().len() > 0 {
                assert(size@.drop_last()[0] == size@[0]);
            }
            assert(md =~= size@.subrange(0, len - 1));
        }
        assert(md =~= size@.subrange(start as int, len - 1));
    }
    if start >= len - 1 {
        // no digits at all
        assert(md.len() == 0);
        return Err(TreeError::InvalidSizeFormat);
    }
    let mut i: usize = start;
    let mut val: u64 = 0;
    let mut overflow: bool = false;
    while i < len - 1
        invariant
            start <= i <= len - 1,
            len >= 2,
            len == size@.len(),
            md == size@.subrange(start as int, len - 1),
            md == magnitude_digits(size@.drop_last()),
            all_digits(size@.subrange(start as int, i as int)),
            !overflow ==> val == digits_value(size@.subrange(start as int, i as int)),
            overflow ==> digits_value(size@.subrange(start as int, i as int)) > u64::MAX,
        decreases len - 1 - i,
    {
        let ghost prefix = size@.subrange(start as int, i as int);
        let c = size.get_char(i);
        let u = c as u32;
        if u < 48 || u > 57 {
            // a non-digit inside the magnitude
            proof {
                assert(md[i - start] == size@[i as int]);
                assert(!is_ascii_digit(md[i - start]));
            }
            return Err(TreeError::InvalidSizeFormat);
        }
        let d: u64 = (u - 48) as u64;
        let ghost prefix1 = size@.subrange(start as int, i + 1);
        proof {
            assert(prefix1.drop_last() =~= prefix);
            assert(prefix1.last() == size@[i as int]);
            assert(digit_value(size@[i as int]) == d);
            assert(digits_value(prefix1) == digits_value(prefix) * 10 + d);
            assert forall|j: int| 0 <= j < prefix1.len() implies is_ascii_digit(
                #[trigger] prefix1[j],
            ) by {
                if j < prefix.len() {
                    assert(prefix1[j] == prefix[j]);
                } else {
                    assert(prefix1[j] == size@[i as int]);
                }
            }
        }
        if overflow {
            // once past 64 bits, adding digits keeps the value past it
            proof {
                lemma_digits_value_nonneg(prefix);
            }
        } else if val > (u64::MAX - d) / 10 {
            proof {
                assert(val * 10 + d > u64::MAX) by (nonlinear_arith)
                    requires
                        val > (u64::MAX - d) / 10,
                        d <= 9,
                ;
            }
            overflow = true;
        } else {
            proof {
                assert(val * 10 + d <= u64::MAX) by (nonlinear_arith)
                    requires
                        val <= (u64::MAX - d) / 10,
                        d <= 9,
                ;
            }
            val = val * 10 + d;
        }
        i = i + 1;
    }
    proof {
        assert(size@.subrange(start as int, i as int) == md);
        lemma_digits_value_nonneg(md);
    }
    if overflow {
        // the magnitude alone is past 64 bits, so the byte count is too
        proof {
            assert(digits_value(md) * unit_multiplier(size@.last()) > u64::MAX)
                by (nonlinear_arith)
                requires
                    digits_value(md) > u64::MAX,
                    unit_multiplier(size@.last()) >= 1,
            ;
        }
        return Err(TreeError::InvalidSizeFormat);
    }
    let limit = u64::MAX / mult;
    if val > limit {
        // the magnitude times the unit does not fit in 64 bits
        proof {
            assert(val * mult > u64::MAX) by (nonlinear_arith)
                requires
                    val > u64::MAX as int / mult as int,
                    mult >= 1,
            ;
        }
        return Err(TreeError::InvalidSizeFormat);
    }
    proof {
        assert(val * mult <= u64::MAX) by (nonlinear_arith)
            requires
                val <= u64::MAX as int / mult as int,
                mult >= 1,
        ;
    }
    Ok(val * mult)
}

/// Checks the argument list of a run: a program name, a size token and a
/// destination path. The size token is parsed; the path is handed back
/// untouched.
pub fn parse_arguments(args: &Vec<String>) -> (r: Result<(u64, String), TreeError>)
    ensures
        args@.len() != 3 ==> r == Err::<(u64, String), TreeError>(TreeError::UsageError),
        args@.len() == 3 ==> match r {
            Ok(p) => size_in_bytes(args@[1]@) == Option::Some(p.0 as int) && p.1@ == args@[2]@,
            Err(e) => size_in_bytes(args@[1]@) is None && e == TreeError::InvalidSizeFormat,
        },
{
    if args.len() != 3 {
        return Err(TreeError::UsageError);
    }
    match validate_size(args[1].as_str()) {
        Ok(v) => Ok((v, args[2].clone())),
        Err(e) => Err(e),
    }
}

} // verus!
