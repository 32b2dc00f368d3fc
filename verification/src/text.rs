//! The serializer: executable emission of the character text of a JSON
//! value, proved equal to the `json_text` specification.

use vstd::prelude::*;

use crate::chars::chars_to_string;
use crate::chars::str_chars;
use crate::json::arr_text;
use crate::json::arr_view;
use crate::json::dec_digit;
use crate::json::escaped_char;
use crate::json::escaped_text;
use crate::json::hex_digit;
use crate::json::int_text;
use crate::json::json_text;
use crate::json::json_view;
use crate::json::lemma_arr_text_push;
use crate::json::lemma_arr_view;
use crate::json::lemma_escaped_text_push;
use crate::json::lemma_obj_text_push;
use crate::json::lemma_obj_view;
use crate::json::nat_text;
use crate::json::obj_text;
use crate::json::obj_view;
use crate::json::string_text;
use crate::json::Json;

verus! {

/// The decimal digit character for a value below 10.
fn dec_digit_char(n: u64) -> (c: char)
    requires
        n < 10,
    ensures
        c == dec_digit(n as nat),
{
    if n == 0 {
        '0'
    } else if n == 1 {
        '1'
    } else if n == 2 {
        '2'
    } else if n == 3 {
        '3'
    } else if n == 4 {
        '4'
    } else if n == 5 {
        '5'
    } else if n == 6 {
        '6'
    } else if n == 7 {
        '7'
    } else if n == 8 {
        '8'
    } else {
        '9'
    }
}

/// The lower-case hexadecimal digit character for a value below 16.
fn hex_digit_char(n: u32) -> (c: char)
    requires
        n < 16,
    ensures
        c == hex_digit(n as nat),
{
    if n == 0 {
        '0'
    } else if n == 1 {
        '1'
    } else if n == 2 {
        '2'
    } else if n == 3 {
        '3'
    } else if n == 4 {
        '4'
    } else if n == 5 {
        '5'
    } else if n == 6 {
        '6'
    } else if n == 7 {
        '7'
    } else if n == 8 {
        '8'
    } else if n == 9 {
        '9'
    } else if n == 10 {
        'a'
    } else if n == 11 {
        'b'
    } else if n == 12 {
        'c'
    } else if n == 13 {
        'd'
    } else if n == 14 {
        'e'
    } else {
        'f'
    }
}

/// Appends the decimal text of a non-negative number.
fn write_u64(out: &mut Vec<char>, n: u64)
    ensures
        final(out)@ == old(out)@ + nat_text(n as nat),
    decreases n,
{
    if n < 10 {
        out.push(dec_digit_char(n));
        assert(out@ =~= old(out)@ + nat_text(n as nat));
    } else {
        write_u64(out, n / 10);
        out.push(dec_digit_char(n % 10));
        assert((n / 10) as nat == (n as nat) / 10);
        assert((n % 10) as nat == (n as nat) % 10);
        assert(out@ =~= old(out)@ + nat_text(n as nat));
    }
}

/// Appends the decimal text of an integer, minus sign included.
fn write_i64(out: &mut Vec<char>, n: i64)
    ensures
        final(out)@ == old(out)@ + int_text(n as int),
{
    if n >= 0 {
        write_u64(out, n as u64);
    } else {
        out.push('-');
        let m: u64 = if n == i64::MIN {
            9223372036854775808u64
        } else {
            (-n) as u64
        };
        assert(m as nat == (-(n as int)) as nat);
        write_u64(out, m);
        assert(out@ =~= old(out)@ + int_text(n as int));
    }
}

/// Appends the escape sequence of one character of a JSON string.
fn write_escaped_char(out: &mut Vec<char>, c: char)
    ensures
        final(out)@ == old(out)@ + escaped_char(c),
{
    if c == '"' {
        out.push('\\');
        out.push('"');
    } else if c == '\\' {
        out.push('\\');
        out.push('\\');
    } else if c == '\u{8}' {
        out.push('\\');
        out.push('b');
    } else if c == '\t' {
        out.push('\\');
        out.push('t');
    } else if c == '\n' {
        out.push('\\');
        out.push('n');
    } else if c == '\u{c}' {
        out.push('\\');
        out.push('f');
    } else if c == '\r' {
        out.push('\\');
        out.push('r');
    } else if (c as u32) < 32 {
        let cu = c as u32;
        out.push('\\');
        out.push('u');
        out.push('0');
        out.push('0');
        out.push(hex_digit_char(cu / 16));
        out.push(hex_digit_char(cu % 16));
        assert((cu / 16) as nat == ((c as u32) / 16) as nat);
        assert(out@ =~= old(out)@ + escaped_char(c));
    } else {
        out.push(c);
    }
    assert(out@ =~= old(out)@ + escaped_char(c));
}

/// Appends the quoted, escaped text of a JSON string.
fn write_string(out: &mut Vec<char>, s: &str)
    ensures
        final(out)@ == old(out)@ + string_text(s@),
{
    let ghost pre = out@;
    out.push('"');
    let cs = str_chars(s);
    let n = cs.len();
    let mut i: usize = 0;
    while i < n
        invariant
            cs@ == s@,
            n == cs@.len(),
            i <= n,
            out@ == pre + seq!['"'] + escaped_text(s@.take(i as int)),
        decreases n - i,
    {
        write_escaped_char(out, cs[i]);
        proof {
            lemma_escaped_text_push(s@.take(i as int), s@[i as int]);
            assert(s@.take(i as int + 1) =~= s@.take(i as int).push(s@[i as int]));
        }
        i = i + 1;
    }
    out.push('"');
    proof {
        assert(s@.take(n as int) =~= s@);
        assert(out@ =~= pre + string_text(s@));
    }
}

/// Appends the text of a JSON value.
pub(crate) fn write_json(out: &mut Vec<char>, j: &Json)
    ensures
        final(out)@ == old(out)@ + json_text(j@),
    decreases *j,
{
    match j {
        Json::Null => {
            out.push('n');
            out.push('u');
            out.push('l');
            out.push('l');
            assert(out@ =~= old(out)@ + json_text(j@));
        },
        Json::Bool(b) => {
            if *b {
                out.push('t');
                out.push('r');
                out.push('u');
                out.push('e');
            } else {
                out.push('f');
                out.push('a');
                out.push('l');
                out.push('s');
                out.push('e');
            }
            assert(out@ =~= old(out)@ + json_text(j@));
        },
        Json::Int(n) => {
            write_i64(out, *n);
        },
        Json::Str(s) => {
            write_string(out, s.as_str());
        },
        Json::Arr(a) => {
            out.push('[');
            write_arr_elems(out, a);
            out.push(']');
            assert(out@ =~= old(out)@ + json_text(j@));
        },
        Json::Obj(m) => {
            out.push('{');
            write_obj_members(out, m);
            out.push('}');
            assert(out@ =~= old(out)@ + json_text(j@));
        },
    }
}

/// Appends the comma-separated texts of the elements of an array.
fn write_arr_elems(out: &mut Vec<char>, a: &Vec<Json>)
    ensures
        final(out)@ == old(out)@ + arr_text(arr_view(a@)),
    decreases a@,
{
    let ghost pre = out@;
    let ghost vs = arr_view(a@);
    proof {
        lemma_arr_view(a@);
    }
    let n = a.len();
    let mut i: usize = 0;
    while i < n
        invariant
            n == a@.len(),
            i <= n,
            vs == arr_view(a@),
            vs.len() == n,
            forall|k: int| 0 <= k < n ==> #[trigger] vs[k] == json_view(a@[k]),
            out@ == pre + arr_text(vs.take(i as int)),
        decreases n - i,
    {
        if i > 0 {
            out.push(',');
        }
        write_json(out, &a[i]);
        proof {
            lemma_arr_text_push(vs.take(i as int), vs[i as int]);
            assert(vs.take(i as int + 1) =~= vs.take(i as int).push(vs[i as int]));
            assert(out@ =~= pre + arr_text(vs.take(i as int + 1)));
        }
        i = i + 1;
    }
    proof {
        assert(vs.take(n as int) =~= vs);
    }
}

/// Appends the comma-separated texts of the members of an object.
fn write_obj_members(out: &mut Vec<char>, m: &Vec<(String, Json)>)
    ensures
        final(out)@ == old(out)@ + obj_text(obj_view(m@)),
    decreases m@,
{
    let ghost pre = out@;
    let ghost vs = obj_view(m@);
    proof {
        lemma_obj_view(m@);
    }
    let n = m.len();
    let mut i: usize = 0;
    while i < n
        invariant
            n == m@.len(),
            i <= n,
            vs == obj_view(m@),
            vs.len() == n,
            forall|k: int|
                0 <= k < n ==> #[trigger] vs[k] == (m@[k].0@, json_view(m@[k].1)),
            out@ == pre + obj_text(vs.take(i as int)),
        decreases n - i,
    {
        if i > 0 {
            out.push(',');
        }
        let member = &m[i];
        write_string(out, member.0.as_str());
        out.push(':');
        write_json(out, &member.1);
        proof {
            lemma_obj_text_push(vs.take(i as int), vs[i as int]);
            assert(vs.take(i as int + 1) =~= vs.take(i as int).push(vs[i as int]));
            assert(out@ =~= pre + obj_text(vs.take(i as int + 1)));
        }
        i = i + 1;
    }
    proof {
        assert(vs.take(n as int) =~= vs);
    }
}

/// The serialized text of a JSON value, as a string.
pub fn json_to_string(j: &Json) -> (r: String)
    ensures
        r@ == json_text(j@),
{
    let mut out: Vec<char> = Vec::new();
    write_json(&mut out, j);
    proof {
        assert(out@ =~= json_text(j@));
    }
    chars_to_string(&out)
}

} // verus!
