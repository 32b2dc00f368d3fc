//! The parser: executable recursive descent over a character vector,
//! proved to return exactly what the grammar specification describes.

use vstd::prelude::*;

use crate::chars::char_from_u32;
use crate::chars::chars_to_string;
use crate::chars::str_chars;
use crate::grammar::digit_val;
use crate::grammar::digits_end;
use crate::grammar::digits_val;
use crate::grammar::hex4_at;
use crate::grammar::hex4_val;
use crate::grammar::hex_val;
use crate::grammar::i64_mag;
use crate::grammar::is_digit;
use crate::grammar::is_hex;
use crate::grammar::is_ws;
use crate::grammar::short_escape;
use crate::grammar::sp_document;
use crate::grammar::sp_elems;
use crate::grammar::sp_members;
use crate::grammar::sp_number;
use crate::grammar::sp_string;
use crate::grammar::sp_value;
use crate::grammar::sp_ws;
use crate::json::arr_view;
use crate::json::json_view;
use crate::json::lemma_arr_view_push;
use crate::json::lemma_obj_view_push;
use crate::json::obj_view;
use crate::json::Json;
use crate::json::JsonV;

verus! {

/// Whether a character is JSON whitespace.
fn is_ws_char(c: char) -> (r: bool)
    ensures
        r == is_ws(c),
{
    c == ' ' || c == '\t' || c == '\n' || c == '\r'
}

/// Whether a character is a decimal digit.
fn is_digit_char(c: char) -> (r: bool)
    ensures
        r == is_digit(c),
{
    let u = c as u32;
    48 <= u && u <= 57
}

/// Whether a character is a hexadecimal digit.
fn is_hex_char(c: char) -> (r: bool)
    ensures
        r == is_hex(c),
{
    let u = c as u32;
    (48 <= u && u <= 57) || (97 <= u && u <= 102) || (65 <= u && u <= 70)
}

/// The value of a hexadecimal digit.
fn hex_val_char(c: char) -> (r: u32)
    requires
        is_hex(c),
    ensures
        r as nat == hex_val(c),
        r < 16,
{
    let u = c as u32;
    if u <= 57 {
        u - 48
    } else if u >= 97 {
        u - 87
    } else {
        u - 55
    }
}

/// The first position at or after `i` that does not hold whitespace.
fn skip_ws(s: &Vec<char>, i: usize) -> (r: usize)
    requires
        i <= s@.len(),
    ensures
        i <= r <= s@.len(),
        r as int == sp_ws(s@, i as int),
{
    let mut cur = i;
    while cur < s.len() && is_ws_char(s[cur])
        invariant
            i <= cur <= s@.len(),
            sp_ws(s@, i as int) == sp_ws(s@, cur as int),
        decreases s@.len() - cur,
    {
        cur = cur + 1;
    }
    cur
}

/// Every character of a digit run is a digit.
proof fn lemma_digits_end_chars(s: Seq<char>, i: int)
    requires
        0 <= i <= s.len(),
    ensures
        forall|k: int| i <= k < digits_end(s, i) ==> is_digit(#[trigger] s[k]),
    decreases s.len() - i,
{
    if i < s.len() && is_digit(s[i]) {
        lemma_digits_end_chars(s, i + 1);
    }
}

/// Parses the number that starts at `i`, where the text holds a minus sign
/// or a digit.
fn parse_number(s: &Vec<char>, i: usize) -> (r: Option<(i64, usize)>)
    requires
        i < s@.len(),
    ensures
        r matches Some(p) ==> sp_number(s@, i as int) == Some((JsonV::Int(p.0 as int), p.1 as int))
            && i < p.1 <= s@.len(),
        r is None ==> sp_number(s@, i as int) is None,
{
    let len = s.len();
    let neg = s[i] == '-';
    let d0 = if neg {
        i + 1
    } else {
        i
    };
    if d0 >= len || !is_digit_char(s[d0]) {
        return None;
    }
    if s[d0] == '0' && d0 + 1 < len && is_digit_char(s[d0 + 1]) {
        return None;
    }
    let mut e = d0;
    while e < s.len() && is_digit_char(s[e])
        invariant
            d0 <= e <= s@.len(),
            digits_end(s@, d0 as int) == digits_end(s@, e as int),
        decreases s@.len() - e,
    {
        e = e + 1;
    }
    assert(e as int == digits_end(s@, d0 as int));
    if e < s.len() && (s[e] == '.' || s[e] == 'e' || s[e] == 'E') {
        return None;
    }
    let ghost ds = s@.subrange(d0 as int, e as int);
    proof {
        lemma_digits_end_chars(s@, d0 as int);
    }
    let mut val: u128 = 0;
    let mut too_big = false;
    let mut cur = d0;
    while cur < e
        invariant
            d0 <= cur <= e <= s@.len(),
            forall|k: int| d0 <= k < e ==> is_digit(#[trigger] s@[k]),
            !too_big ==> val as nat == digits_val(s@.subrange(d0 as int, cur as int)) && val
                <= 0x8000000000000000u128,
            too_big ==> digits_val(s@.subrange(d0 as int, cur as int)) > i64_mag(),
        decreases e - cur,
    {
        let d = (s[cur] as u32 - 48) as u128;
        proof {
            assert(s@.subrange(d0 as int, cur as int + 1).drop_last() =~= s@.subrange(
                d0 as int,
                cur as int,
            ));
            assert(s@.subrange(d0 as int, cur as int + 1).last() == s@[cur as int]);
            assert(d as nat == digit_val(s@[cur as int]));
        }
        if too_big {
            assert(digits_val(s@.subrange(d0 as int, cur as int + 1)) > i64_mag());
        } else {
            let nv = val * 10 + d;
            assert(nv as nat == digits_val(s@.subrange(d0 as int, cur as int + 1)));
            if nv > 0x8000000000000000u128 {
                too_big = true;
            } else {
                val = nv;
            }
        }
        cur = cur + 1;
    }
    proof {
        crate::grammar::lemma_digits_end(s@, d0 as int);
        assert(s@.subrange(d0 as int, cur as int) =~= ds);
    }
    if too_big {
        return None;
    }
    if neg {
        let n: i64 = if val == 0x8000000000000000u128 {
            i64::MIN
        } else {
            -((val as u64) as i64)
        };
        assert(n as int == -(digits_val(ds) as int));
        Some((n, e))
    } else {
        if val >= 0x8000000000000000u128 {
            return None;
        }
        let n: i64 = (val as u64) as i64;
        assert(n as int == digits_val(ds) as int);
        Some((n, e))
    }
}

/// The character written by a short escape `\x`, if `x` is one of the
/// escape letters.
fn short_escape_char(e: char) -> (r: Option<char>)
    ensures
        r == short_escape(e),
{
    if e == '"' {
        Some('"')
    } else if e == '\\' {
        Some('\\')
    } else if e == '/' {
        Some('/')
    } else if e == 'b' {
        Some('\u{8}')
    } else if e == 'f' {
        Some('\u{c}')
    } else if e == 'n' {
        Some('\n')
    } else if e == 'r' {
        Some('\r')
    } else if e == 't' {
        Some('\t')
    } else {
        None
    }
}

/// `None` results pass through prepending, `Some` results gain a prefix.
pub open spec fn prepend_chars(pre: Seq<char>, o: Option<(Seq<char>, int)>) -> Option<
    (Seq<char>, int),
> {
    match o {
        Some(p) => Some((pre + p.0, p.1)),
        None => None,
    }
}

/// Parses the body of a string that starts at `i`, just after the opening
/// quote, up to and including the closing quote.
fn parse_string_body(s: &Vec<char>, i: usize) -> (r: Option<(String, usize)>)
    requires
        i <= s@.len(),
    ensures
        r matches Some(p) ==> sp_string(s@, i as int) == Some((p.0@, p.1 as int)) && i < p.1
            <= s@.len(),
        r is None ==> sp_string(s@, i as int) is None,
{
    let mut acc: Vec<char> = Vec::new();
    let mut cur = i;
    loop
        invariant
            i <= cur <= s@.len(),
            sp_string(s@, i as int) == prepend_chars(acc@, sp_string(s@, cur as int)),
        decreases s@.len() - cur,
    {
        if cur >= s.len() {
            return None;
        }
        let c = s[cur];
        if c == '"' {
            proof {
                assert(acc@ + Seq::<char>::empty() =~= acc@);
            }
            let out = chars_to_string(&acc);
            return Some((out, cur + 1));
        }
        if c == '\\' {
            if s.len() - cur < 2 {
                return None;
            }
            let e = s[cur + 1];
            if e == 'u' {
                if s.len() - cur < 6 || !(is_hex_char(s[cur + 2]) && is_hex_char(s[cur + 3])
                    && is_hex_char(s[cur + 4]) && is_hex_char(s[cur + 5])) {
                    return None;
                }
                assert(hex4_at(s@, cur as int + 2));
                let n: u32 = hex_val_char(s[cur + 2]) * 4096 + hex_val_char(s[cur + 3]) * 256
                    + hex_val_char(s[cur + 4]) * 16 + hex_val_char(s[cur + 5]);
                assert(n as nat == hex4_val(s@, cur as int + 2));
                if 0xD800 <= n && n < 0xDC00 {
                    // a high surrogate: a low one must follow
                    if s.len() - cur < 12 || !(s[cur + 6] == '\\' && s[cur + 7] == 'u' && is_hex_char(
                        s[cur + 8],
                    ) && is_hex_char(s[cur + 9]) && is_hex_char(s[cur + 10]) && is_hex_char(
                        s[cur + 11],
                    )) {
                        return None;
                    }
                    assert(hex4_at(s@, cur as int + 8));
                    let n2: u32 = hex_val_char(s[cur + 8]) * 4096 + hex_val_char(s[cur + 9]) * 256
                        + hex_val_char(s[cur + 10]) * 16 + hex_val_char(s[cur + 11]);
                    assert(n2 as nat == hex4_val(s@, cur as int + 8));
                    if !(0xDC00 <= n2 && n2 < 0xE000) {
                        return None;
                    }
                    let cp: u32 = 0x10000 + (n - 0xD800) * 0x400 + (n2 - 0xDC00);
                    assert(0x10000 <= cp <= 0x10FFFF);
                    let parsed = char_from_u32(cp).unwrap();
                    proof {
                        vstd::utf8::char_u32_cast(parsed, cp);
                        step_string_invariant(s@, i as int, acc@, cur as int, parsed, cur as int + 12);
                    }
                    acc.push(parsed);
                    cur = cur + 12;
                } else if 0xDC00 <= n && n < 0xE000 {
                    return None;
                } else {
                    assert(n < 0xD800 || 0xE000 <= n);
                    let parsed = char_from_u32(n).unwrap();
                    proof {
                        vstd::utf8::char_u32_cast(parsed, n);
                        step_string_invariant(s@, i as int, acc@, cur as int, parsed, cur as int + 6);
                    }
                    acc.push(parsed);
                    cur = cur + 6;
                }
            } else {
                match short_escape_char(e) {
                    None => {
                        return None;
                    },
                    Some(parsed) => {
                        proof {
                            step_string_invariant(
                                s@,
                                i as int,
                                acc@,
                                cur as int,
                                parsed,
                                cur as int + 2,
                            );
                        }
                        acc.push(parsed);
                        cur = cur + 2;
                    },
                }
            }
        } else if (c as u32) < 32 {
            return None;
        } else {
            proof {
                step_string_invariant(s@, i as int, acc@, cur as int, c, cur as int + 1);
            }
            acc.push(c);
            cur = cur + 1;
        }
    }
}

/// Carries the string-parsing invariant over one consumed character: when
/// the remaining body at `cur` denotes `c` followed by the body at `next`,
/// the accumulated prefix may absorb `c`.
proof fn step_string_invariant(s: Seq<char>, i: int, acc: Seq<char>, cur: int, c: char, next: int)
    requires
        sp_string(s, i) == prepend_chars(acc, sp_string(s, cur)),
        sp_string(s, cur) == prepend_chars(seq![c], sp_string(s, next)),
    ensures
        sp_string(s, i) == prepend_chars(acc.push(c), sp_string(s, next)),
{
    match sp_string(s, next) {
        Some(p) => {
            assert(acc + (seq![c] + p.0) =~= acc.push(c) + p.0);
        },
        None => {},
    }
}

/// `None` results pass through prepending, `Some` results gain a prefix.
pub open spec fn prepend_elems(pre: Seq<JsonV>, o: Option<(Seq<JsonV>, int)>) -> Option<
    (Seq<JsonV>, int),
> {
    match o {
        Some(p) => Some((pre + p.0, p.1)),
        None => None,
    }
}

/// `None` results pass through prepending, `Some` results gain a prefix.
pub open spec fn prepend_members(
    pre: Seq<(Seq<char>, JsonV)>,
    o: Option<(Seq<(Seq<char>, JsonV)>, int)>,
) -> Option<(Seq<(Seq<char>, JsonV)>, int)> {
    match o {
        Some(p) => Some((pre + p.0, p.1)),
        None => None,
    }
}

/// Carries the element-list invariant over one consumed element.
proof fn step_elems_invariant(s: Seq<char>, i: int, acc: Seq<Json>, cur: int, v: Json, next: int)
    requires
        sp_elems(s, i) == prepend_elems(arr_view(acc), sp_elems(s, cur)),
        sp_elems(s, cur) == prepend_elems(seq![json_view(v)], sp_elems(s, next)),
    ensures
        sp_elems(s, i) == prepend_elems(arr_view(acc.push(v)), sp_elems(s, next)),
{
    lemma_arr_view_push(acc, v);
    match sp_elems(s, next) {
        Some(p) => {
            assert(arr_view(acc) + (seq![json_view(v)] + p.0) =~= arr_view(acc.push(v)) + p.0);
        },
        None => {},
    }
}

/// Carries the member-list invariant over one consumed member.
proof fn step_members_invariant(
    s: Seq<char>,
    i: int,
    acc: Seq<(String, Json)>,
    cur: int,
    m: (String, Json),
    next: int,
)
    requires
        sp_members(s, i) == prepend_members(obj_view(acc), sp_members(s, cur)),
        sp_members(s, cur) == prepend_members(seq![(m.0@, json_view(m.1))], sp_members(s, next)),
    ensures
        sp_members(s, i) == prepend_members(obj_view(acc.push(m)), sp_members(s, next)),
{
    lemma_obj_view_push(acc, m);
    match sp_members(s, next) {
        Some(p) => {
            assert(obj_view(acc) + (seq![(m.0@, json_view(m.1))] + p.0) =~= obj_view(acc.push(m))
                + p.0);
        },
        None => {},
    }
}

/// Parses the JSON value that starts at `i`, at which whitespace has
/// already been passed.
fn parse_value(s: &Vec<char>, i: usize) -> (r: Option<(Json, usize)>)
    requires
        i <= s@.len(),
    ensures
        r matches Some(p) ==> sp_value(s@, i as int) == Some((p.0@, p.1 as int)) && i < p.1
            <= s@.len(),
        r is None ==> sp_value(s@, i as int) is None,
    decreases s@.len() - i, 1int,
{
    let len = s.len();
    if i >= len {
        return None;
    }
    let c = s[i];
    if c == 'n' {
        if len - i >= 4 && s[i + 1] == 'u' && s[i + 2] == 'l' && s[i + 3] == 'l' {
            Some((Json::Null, i + 4))
        } else {
            None
        }
    } else if c == 't' {
        if len - i >= 4 && s[i + 1] == 'r' && s[i + 2] == 'u' && s[i + 3] == 'e' {
            Some((Json::Bool(true), i + 4))
        } else {
            None
        }
    } else if c == 'f' {
        if len - i >= 5 && s[i + 1] == 'a' && s[i + 2] == 'l' && s[i + 3] == 's' && s[i + 4] == 'e' {
            Some((Json::Bool(false), i + 5))
        } else {
            None
        }
    } else if c == '"' {
        match parse_string_body(s, i + 1) {
            Some((st, j)) => Some((Json::Str(st), j)),
            None => None,
        }
    } else if c == '-' || is_digit_char(c) {
        match parse_number(s, i) {
            Some((n, e)) => Some((Json::Int(n), e)),
            None => None,
        }
    } else if c == '[' {
        let j = skip_ws(s, i + 1);
        if j < len && s[j] == ']' {
            let empty: Vec<Json> = Vec::new();
            proof {
                assert(arr_view(empty@) =~= Seq::<JsonV>::empty());
            }
            Some((Json::Arr(empty), j + 1))
        } else {
            match parse_elems(s, j) {
                Some((vs, k)) => {
                    if k < len && s[k] == ']' {
                        Some((Json::Arr(vs), k + 1))
                    } else {
                        None
                    }
                },
                None => None,
            }
        }
    } else if c == '{' {
        let j = skip_ws(s, i + 1);
        if j < len && s[j] == '}' {
            let empty: Vec<(String, Json)> = Vec::new();
            proof {
                assert(obj_view(empty@) =~= Seq::<(Seq<char>, JsonV)>::empty());
            }
            Some((Json::Obj(empty), j + 1))
        } else {
            match parse_members(s, j) {
                Some((ms, k)) => {
                    if k < len && s[k] == '}' {
                        Some((Json::Obj(ms), k + 1))
                    } else {
                        None
                    }
                },
                None => None,
            }
        }
    } else {
        None
    }
}

/// Parses the comma-separated elements of an array, starting at a value.
fn parse_elems(s: &Vec<char>, i: usize) -> (r: Option<(Vec<Json>, usize)>)
    requires
        i <= s@.len(),
    ensures
        r matches Some(p) ==> sp_elems(s@, i as int) == Some((arr_view(p.0@), p.1 as int)) && i
            < p.1 <= s@.len(),
        r is None ==> sp_elems(s@, i as int) is None,
    decreases s@.len() - i, 2int,
{
    let len = s.len();
    let mut acc: Vec<Json> = Vec::new();
    let mut cur = i;
    proof {
        assert(arr_view(acc@) =~= Seq::<JsonV>::empty());
        match sp_elems(s@, i as int) {
            Some(p) => {
                assert(arr_view(acc@) + p.0 =~= p.0);
            },
            None => {},
        }
    }
    loop
        invariant
            i <= cur <= s@.len(),
            len == s@.len(),
            sp_elems(s@, i as int) == prepend_elems(arr_view(acc@), sp_elems(s@, cur as int)),
        decreases s@.len() - cur,
    {
        match parse_value(s, cur) {
            None => {
                return None;
            },
            Some((v, j)) => {
                let k = skip_ws(s, j);
                if k < len && s[k] == ',' {
                    let m = skip_ws(s, k + 1);
                    proof {
                        step_elems_invariant(s@, i as int, acc@, cur as int, v, m as int);
                    }
                    acc.push(v);
                    cur = m;
                } else {
                    proof {
                        lemma_arr_view_push(acc@, v);
                        assert(arr_view(acc@) + seq![json_view(v)] =~= arr_view(acc@).push(
                            json_view(v),
                        ));
                    }
                    acc.push(v);
                    return Some((acc, k));
                }
            },
        }
    }
}

/// Parses the comma-separated members of an object, starting at a key.
fn parse_members(s: &Vec<char>, i: usize) -> (r: Option<(Vec<(String, Json)>, usize)>)
    requires
        i <= s@.len(),
    ensures
        r matches Some(p) ==> sp_members(s@, i as int) == Some((obj_view(p.0@), p.1 as int)) && i
            < p.1 <= s@.len(),
        r is None ==> sp_members(s@, i as int) is None,
    decreases s@.len() - i, 2int,
{
    let len = s.len();
    let mut acc: Vec<(String, Json)> = Vec::new();
    let mut cur = i;
    proof {
        assert(obj_view(acc@) =~= Seq::<(Seq<char>, JsonV)>::empty());
        match sp_members(s@, i as int) {
            Some(p) => {
                assert(obj_view(acc@) + p.0 =~= p.0);
            },
            None => {},
        }
    }
    loop
        invariant
            i <= cur <= s@.len(),
            len == s@.len(),
            sp_members(s@, i as int) == prepend_members(obj_view(acc@), sp_members(s@, cur as int)),
        decreases s@.len() - cur,
    {
        if cur >= len {
            return None;
        }
        if s[cur] != '"' {
            return None;
        }
        match parse_string_body(s, cur + 1) {
            None => {
                return None;
            },
            Some((key, j)) => {
                let k = skip_ws(s, j);
                if !(k < len && s[k] == ':') {
                    return None;
                }
                let m = skip_ws(s, k + 1);
                match parse_value(s, m) {
                    None => {
                        return None;
                    },
                    Some((v, e)) => {
                        let p = skip_ws(s, e);
                        if p < len && s[p] == ',' {
                            let q = skip_ws(s, p + 1);
                            proof {
                                step_members_invariant(
                                    s@,
                                    i as int,
                                    acc@,
                                    cur as int,
                                    (key, v),
                                    q as int,
                                );
                            }
                            acc.push((key, v));
                            cur = q;
                        } else {
                            proof {
                                lemma_obj_view_push(acc@, (key, v));
                                assert(obj_view(acc@) + seq![(key@, json_view(v))] =~= obj_view(
                                    acc@,
                                ).push((key@, json_view(v))));
                            }
                            acc.push((key, v));
                            return Some((acc, p));
                        }
                    },
                }
            },
        }
    }
}

/// Parses a whole JSON document: one value with whitespace around it and
/// nothing else before the end of the text.
pub fn parse_document(s: &str) -> (r: Option<Json>)
    ensures
        r matches Some(v) ==> sp_document(s@) == Some(v@),
        r is None ==> sp_document(s@) is None,
{
    let cs = str_chars(s);
    let i = skip_ws(&cs, 0);
    match parse_value(&cs, i) {
        None => None,
        Some((v, j)) => {
            let k = skip_ws(&cs, j);
            if k == cs.len() {
                Some(v)
            } else {
                None
            }
        },
    }
}

} // verus!
