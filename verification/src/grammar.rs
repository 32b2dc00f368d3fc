//! The JSON grammar: a recursive-descent parse of a character sequence,
//! written as specification functions. The executable parser is proved to
//! return exactly what these functions describe.
//!
//! Each function takes the whole text and a position and yields the parsed
//! value with the position after it, or `None` where the text does not
//! match. Numbers must be integers that fit in 64 signed bits: a fraction,
//! an exponent or a wider number is not accepted. The bounds tests on
//! intermediate positions are there to make termination evident; the
//! executable parser shows along the way that they always hold.

use vstd::prelude::*;

use crate::json::JsonV;

verus! {

/// Whitespace between JSON tokens.
pub open spec fn is_ws(c: char) -> bool {
    c == ' ' || c == '\t' || c == '\n' || c == '\r'
}

/// A decimal digit.
pub open spec fn is_digit(c: char) -> bool {
    48 <= c as u32 <= 57
}

/// The value of a decimal digit.
pub open spec fn digit_val(c: char) -> nat {
    (c as u32 - 48) as nat
}

/// A hexadecimal digit, either case.
pub open spec fn is_hex(c: char) -> bool {
    is_digit(c) || (97 <= c as u32 <= 102) || (65 <= c as u32 <= 70)
}

/// The value of a hexadecimal digit.
pub open spec fn hex_val(c: char) -> nat {
    if is_digit(c) {
        digit_val(c)
    } else if 97 <= c as u32 <= 102 {
        (c as u32 - 87) as nat
    } else {
        (c as u32 - 55) as nat
    }
}

/// The position after the whitespace that starts at `i`.
pub open spec fn sp_ws(s: Seq<char>, i: int) -> int
    decreases s.len() - i,
        when 0 <= i <= s.len()
{
    if i < s.len() && is_ws(s[i]) {
        sp_ws(s, i + 1)
    } else {
        i
    }
}

/// The position after the run of decimal digits that starts at `i`.
pub open spec fn digits_end(s: Seq<char>, i: int) -> int
    decreases s.len() - i,
        when 0 <= i <= s.len()
{
    if i < s.len() && is_digit(s[i]) {
        digits_end(s, i + 1)
    } else {
        i
    }
}

/// A digit run stays inside the text and never moves backwards.
pub proof fn lemma_digits_end(s: Seq<char>, i: int)
    requires
        0 <= i <= s.len(),
    ensures
        i <= digits_end(s, i) <= s.len(),
    decreases s.len() - i,
{
    if i < s.len() && is_digit(s[i]) {
        lemma_digits_end(s, i + 1);
    }
}

/// The number written by a sequence of decimal digits.
pub open spec fn digits_val(ds: Seq<char>) -> nat
    decreases ds.len(),
{
    if ds.len() == 0 {
        0
    } else {
        digits_val(ds.drop_last()) * 10 + digit_val(ds.last())
    }
}

/// The character written by a short escape `\x`, if `x` is one of the
/// escape letters.
pub open spec fn short_escape(c: char) -> Option<char> {
    if c == '"' {
        Some('"')
    } else if c == '\\' {
        Some('\\')
    } else if c == '/' {
        Some('/')
    } else if c == 'b' {
        Some('\u{8}')
    } else if c == 'f' {
        Some('\u{c}')
    } else if c == 'n' {
        Some('\n')
    } else if c == 'r' {
        Some('\r')
    } else if c == 't' {
        Some('\t')
    } else {
        None
    }
}

/// Four hexadecimal digits stand at `i`.
pub open spec fn hex4_at(s: Seq<char>, i: int) -> bool {
    &&& i + 4 <= s.len()
    &&& is_hex(s[i])
    &&& is_hex(s[i + 1])
    &&& is_hex(s[i + 2])
    &&& is_hex(s[i + 3])
}

/// The value of the four hexadecimal digits at `i`.
pub open spec fn hex4_val(s: Seq<char>, i: int) -> nat {
    hex_val(s[i]) * 4096 + hex_val(s[i + 1]) * 256 + hex_val(s[i + 2]) * 16 + hex_val(s[i + 3])
}

/// The body of a JSON string starting at `i`, just after the opening
/// quote: the characters it denotes and the position after the closing
/// quote. Escapes follow JSON: the short escapes, `\u` with four
/// hexadecimal digits, and a surrogate pair written as two `\u` escapes
/// for a code point beyond the basic plane. A lone surrogate or a raw
/// control character does not parse.
pub open spec fn sp_string(s: Seq<char>, i: int) -> Option<(Seq<char>, int)>
    decreases s.len() - i,
        when 0 <= i <= s.len()
{
    if i >= s.len() {
        None
    } else if s[i] == '"' {
        Some((Seq::<char>::empty(), i + 1))
    } else if s[i] == '\\' {
        if i + 2 > s.len() {
            None
        } else if s[i + 1] == 'u' {
            if !hex4_at(s, i + 2) {
                None
            } else {
                let n = hex4_val(s, i + 2);
                if 0xD800 <= n < 0xDC00 {
                    // a high surrogate: a low one must follow
                    if i + 12 <= s.len() && s[i + 6] == '\\' && s[i + 7] == 'u' && hex4_at(s, i + 8) {
                        let n2 = hex4_val(s, i + 8);
                        if 0xDC00 <= n2 < 0xE000 {
                            let cp = 0x10000 + (n - 0xD800) * 0x400 + (n2 - 0xDC00);
                            match sp_string(s, i + 12) {
                                Some((rest, j)) => Some((seq![((cp as u32) as char)] + rest, j)),
                                None => None,
                            }
                        } else {
                            None
                        }
                    } else {
                        None
                    }
                } else if 0xDC00 <= n < 0xE000 {
                    None
                } else {
                    match sp_string(s, i + 6) {
                        Some((rest, j)) => Some((seq![((n as u32) as char)] + rest, j)),
                        None => None,
                    }
                }
            }
        } else {
            match short_escape(s[i + 1]) {
                Some(c) => match sp_string(s, i + 2) {
                    Some((rest, j)) => Some((seq![c] + rest, j)),
                    None => None,
                },
                None => None,
            }
        }
    } else if (s[i] as u32) < 32 {
        None
    } else {
        match sp_string(s, i + 1) {
            Some((rest, j)) => Some((seq![s[i]] + rest, j)),
            None => None,
        }
    }
}

/// The largest magnitude a 64-bit signed integer can carry.
pub open spec fn i64_mag() -> nat {
    0x8000000000000000
}

/// A JSON number starting at `i`: an optional minus sign and a digit run
/// with no superfluous leading zero, not followed by a fraction or an
/// exponent, whose value fits in a 64-bit signed integer.
pub open spec fn sp_number(s: Seq<char>, i: int) -> Option<(JsonV, int)> {
    if !(0 <= i < s.len()) {
        None
    } else {
        let neg = s[i] == '-';
        let d0 = if neg {
            i + 1
        } else {
            i
        };
        if !(d0 < s.len() && is_digit(s[d0])) {
            None
        } else if s[d0] == '0' && d0 + 1 < s.len() && is_digit(s[d0 + 1]) {
            None
        } else {
            let e = digits_end(s, d0);
            if !(d0 < e <= s.len()) {
                None
            } else if e < s.len() && (s[e] == '.' || s[e] == 'e' || s[e] == 'E') {
                None
            } else {
                let v = digits_val(s.subrange(d0, e));
                if neg {
                    if v > i64_mag() {
                        None
                    } else {
                        Some((JsonV::Int(-(v as int)), e))
                    }
                } else {
                    if v >= i64_mag() {
                        None
                    } else {
                        Some((JsonV::Int(v as int), e))
                    }
                }
            }
        }
    }
}

/// A JSON value starting at `i`, at which whitespace has already been
/// passed: the value and the position right after it.
pub open spec fn sp_value(s: Seq<char>, i: int) -> Option<(JsonV, int)>
    decreases s.len() - i, 1int,
        when 0 <= i <= s.len()
{
    if i >= s.len() {
        None
    } else {
        let c = s[i];
        if c == 'n' {
            if i + 4 <= s.len() && s[i + 1] == 'u' && s[i + 2] == 'l' && s[i + 3] == 'l' {
                Some((JsonV::Null, i + 4))
            } else {
                None
            }
        } else if c == 't' {
            if i + 4 <= s.len() && s[i + 1] == 'r' && s[i + 2] == 'u' && s[i + 3] == 'e' {
                Some((JsonV::Bool(true), i + 4))
            } else {
                None
            }
        } else if c == 'f' {
            if i + 5 <= s.len() && s[i + 1] == 'a' && s[i + 2] == 'l' && s[i + 3] == 's' && s[i + 4]
                == 'e' {
                Some((JsonV::Bool(false), i + 5))
            } else {
                None
            }
        } else if c == '"' {
            match sp_string(s, i + 1) {
                Some((cs, j)) => Some((JsonV::Str(cs), j)),
                None => None,
            }
        } else if c == '-' || is_digit(c) {
            sp_number(s, i)
        } else if c == '[' {
            let j = sp_ws(s, i + 1);
            if !(i + 1 <= j <= s.len()) {
                None
            } else if j < s.len() && s[j] == ']' {
                Some((JsonV::Arr(Seq::<JsonV>::empty()), j + 1))
            } else {
                match sp_elems(s, j) {
                    Some((vs, k)) => if k < s.len() && s[k] == ']' {
                        Some((JsonV::Arr(vs), k + 1))
                    } else {
                        None
                    },
                    None => None,
                }
            }
        } else if c == '{' {
            let j = sp_ws(s, i + 1);
            if !(i + 1 <= j <= s.len()) {
                None
            } else if j < s.len() && s[j] == '}' {
                Some((JsonV::Obj(Seq::<(Seq<char>, JsonV)>::empty()), j + 1))
            } else {
                match sp_members(s, j) {
                    Some((ms, k)) => if k < s.len() && s[k] == '}' {
                        Some((JsonV::Obj(ms), k + 1))
                    } else {
                        None
                    },
                    None => None,
                }
            }
        } else {
            None
        }
    }
}

/// One or more comma-separated array elements starting at `i`, at which
/// whitespace has already been passed: the values and the position after
/// the whitespace that follows the last of them.
pub open spec fn sp_elems(s: Seq<char>, i: int) -> Option<(Seq<JsonV>, int)>
    decreases s.len() - i, 2int,
        when 0 <= i <= s.len()
{
    match sp_value(s, i) {
        None => None,
        Some((v, j)) => {
            if !(i < j <= s.len()) {
                None
            } else {
                let k = sp_ws(s, j);
                if !(j <= k <= s.len()) {
                    None
                } else if k < s.len() && s[k] == ',' {
                    let m = sp_ws(s, k + 1);
                    if !(k + 1 <= m <= s.len()) {
                        None
                    } else {
                        match sp_elems(s, m) {
                            Some((vs, e)) => Some((seq![v] + vs, e)),
                            None => None,
                        }
                    }
                } else {
                    Some((seq![v], k))
                }
            }
        },
    }
}

/// One or more comma-separated object members starting at `i`, at which
/// whitespace has already been passed: the key-value pairs and the
/// position after the whitespace that follows the last of them.
pub open spec fn sp_members(s: Seq<char>, i: int) -> Option<(Seq<(Seq<char>, JsonV)>, int)>
    decreases s.len() - i, 2int,
        when 0 <= i <= s.len()
{
    if !(i < s.len() && s[i] == '"') {
        None
    } else {
        match sp_string(s, i + 1) {
            None => None,
            Some((key, j)) => {
                if !(i < j <= s.len()) {
                    None
                } else {
                    let k = sp_ws(s, j);
                    if !(j <= k <= s.len() && k < s.len() && s[k] == ':') {
                        None
                    } else {
                        let m = sp_ws(s, k + 1);
                        if !(k + 1 <= m <= s.len()) {
                            None
                        } else {
                            match sp_value(s, m) {
                                None => None,
                                Some((v, e)) => {
                                    if !(m < e <= s.len()) {
                                        None
                                    } else {
                                        let p = sp_ws(s, e);
                                        if !(e <= p <= s.len()) {
                                            None
                                        } else if p < s.len() && s[p] == ',' {
                                            let q = sp_ws(s, p + 1);
                                            if !(p + 1 <= q <= s.len()) {
                                                None
                                            } else {
                                                match sp_members(s, q) {
                                                    Some((ms, z)) => Some(
                                                        (seq![(key, v)] + ms, z),
                                                    ),
                                                    None => None,
                                                }
                                            }
                                        } else {
                                            Some((seq![(key, v)], p))
                                        }
                                    }
                                },
                            }
                        }
                    }
                }
            },
        }
    }
}

/// A whole JSON document: one value, with whitespace allowed around it and
/// nothing else before the end of the text.
pub open spec fn sp_document(s: Seq<char>) -> Option<JsonV> {
    let i = sp_ws(s, 0);
    if !(0 <= i <= s.len()) {
        None
    } else {
        match sp_value(s, i) {
            None => None,
            Some((v, j)) => if 0 <= j <= s.len() && sp_ws(s, j) == s.len() {
                Some(v)
            } else {
                None
            },
        }
    }
}

} // verus!
