//! The JSON document model shared by the protocol codec and the tools.
//!
//! `Json` is the executable document type; its mathematical counterpart is
//! the ghost type `JsonV`, reached through the view operator. All contracts
//! of the codec and the dispatcher speak about `JsonV` values and about the
//! character sequences they serialize to.

use vstd::prelude::*;

verus! {

/// A JSON document. Objects keep their members in insertion order, so the
/// text of a serialized document is fully determined by the value. Numbers
/// are restricted to 64-bit signed integers: the protocol itself uses only
/// integral identifiers and counters.
pub enum Json {
    Null,
    Bool(bool),
    Int(i64),
    Str(String),
    Arr(Vec<Json>),
    Obj(Vec<(String, Json)>),
}

/// The mathematical value of a JSON document.
pub enum JsonV {
    Null,
    Bool(bool),
    Int(int),
    Str(Seq<char>),
    Arr(Seq<JsonV>),
    Obj(Seq<(Seq<char>, JsonV)>),
}

/// The mathematical value of an executable document.
pub open spec fn json_view(j: Json) -> JsonV
    decreases j,
{
    match j {
        Json::Null => JsonV::Null,
        Json::Bool(b) => JsonV::Bool(b),
        Json::Int(n) => JsonV::Int(n as int),
        Json::Str(s) => JsonV::Str(s@),
        Json::Arr(a) => JsonV::Arr(arr_view(a@)),
        Json::Obj(m) => JsonV::Obj(obj_view(m@)),
    }
}

/// The mathematical values of the elements of an array.
pub open spec fn arr_view(elems: Seq<Json>) -> Seq<JsonV>
    decreases elems,
{
    if elems.len() == 0 {
        Seq::<JsonV>::empty()
    } else {
        seq![json_view(elems[0])] + arr_view(elems.drop_first())
    }
}

/// The mathematical values of the members of an object.
pub open spec fn obj_view(members: Seq<(String, Json)>) -> Seq<(Seq<char>, JsonV)>
    decreases members,
{
    if members.len() == 0 {
        Seq::<(Seq<char>, JsonV)>::empty()
    } else {
        seq![(members[0].0@, json_view(members[0].1))] + obj_view(members.drop_first())
    }
}

/// An array's view has one element for each element of the array, in place.
pub proof fn lemma_arr_view(elems: Seq<Json>)
    ensures
        arr_view(elems).len() == elems.len(),
        forall|i: int|
            0 <= i < elems.len() ==> #[trigger] arr_view(elems)[i] == json_view(elems[i]),
    decreases elems.len(),
{
    if elems.len() > 0 {
        lemma_arr_view(elems.drop_first());
    }
}

/// An object's view has one member for each member of the object, in place.
pub proof fn lemma_obj_view(members: Seq<(String, Json)>)
    ensures
        obj_view(members).len() == members.len(),
        forall|i: int|
            0 <= i < members.len() ==> #[trigger] obj_view(members)[i] == (
            members[i].0@,
            json_view(members[i].1),
            ),
    decreases members.len(),
{
    if members.len() > 0 {
        lemma_obj_view(members.drop_first());
    }
}

/// The view of an array with one more element is the view of the array
/// with that element's view at the end.
pub proof fn lemma_arr_view_push(elems: Seq<Json>, e: Json)
    ensures
        arr_view(elems.push(e)) == arr_view(elems).push(json_view(e)),
    decreases elems.len(),
{
    let whole = elems.push(e);
    if elems.len() == 0 {
        assert(whole[0] == e);
        assert(whole.drop_first() =~= Seq::<Json>::empty());
        assert(arr_view(whole.drop_first()) == Seq::<JsonV>::empty());
        assert(arr_view(whole) =~= arr_view(elems).push(json_view(e)));
    } else {
        assert(whole[0] == elems[0]);
        assert(whole.drop_first() =~= elems.drop_first().push(e));
        lemma_arr_view_push(elems.drop_first(), e);
        assert(arr_view(whole) =~= arr_view(elems).push(json_view(e)));
    }
}

/// The view of an object with one more member is the view of the object
/// with that member's view at the end.
pub proof fn lemma_obj_view_push(members: Seq<(String, Json)>, m: (String, Json))
    ensures
        obj_view(members.push(m)) == obj_view(members).push((m.0@, json_view(m.1))),
    decreases members.len(),
{
    let whole = members.push(m);
    if members.len() == 0 {
        assert(whole[0] == m);
        assert(whole.drop_first() =~= Seq::<(String, Json)>::empty());
        assert(obj_view(whole.drop_first()) == Seq::<(Seq<char>, JsonV)>::empty());
        assert(obj_view(whole) =~= obj_view(members).push((m.0@, json_view(m.1))));
    } else {
        assert(whole[0] == members[0]);
        assert(whole.drop_first() =~= members.drop_first().push(m));
        lemma_obj_view_push(members.drop_first(), m);
        assert(obj_view(whole) =~= obj_view(members).push((m.0@, json_view(m.1))));
    }
}

impl View for Json {
    type V = JsonV;

    open spec fn view(&self) -> JsonV {
        json_view(*self)
    }
}

/// The serialized text of a JSON value, character by character.
pub open spec fn json_text(j: JsonV) -> Seq<char>
    decreases j,
{
    match j {
        JsonV::Null => seq!['n', 'u', 'l', 'l'],
        JsonV::Bool(b) => if b {
            seq!['t', 'r', 'u', 'e']
        } else {
            seq!['f', 'a', 'l', 's', 'e']
        },
        JsonV::Int(n) => int_text(n),
        JsonV::Str(s) => string_text(s),
        JsonV::Arr(a) => seq!['['] + arr_text(a) + seq![']'],
        JsonV::Obj(m) => seq!['{'] + obj_text(m) + seq!['}'],
    }
}

/// The text of a JSON string: the escaped characters between quotes.
pub open spec fn string_text(s: Seq<char>) -> Seq<char> {
    seq!['"'] + escaped_text(s) + seq!['"']
}

/// The comma-separated texts of the elements of an array.
pub open spec fn arr_text(elems: Seq<JsonV>) -> Seq<char>
    decreases elems,
{
    if elems.len() == 0 {
        Seq::<char>::empty()
    } else if elems.len() == 1 {
        json_text(elems[0])
    } else {
        json_text(elems[0]) + seq![','] + arr_text(elems.drop_first())
    }
}

/// The comma-separated `"key":value` texts of the members of an object.
pub open spec fn obj_text(members: Seq<(Seq<char>, JsonV)>) -> Seq<char>
    decreases members,
{
    if members.len() == 0 {
        Seq::<char>::empty()
    } else if members.len() == 1 {
        member_text(members[0])
    } else {
        member_text(members[0]) + seq![','] + obj_text(members.drop_first())
    }
}

/// The `"key":value` text of one object member.
pub open spec fn member_text(member: (Seq<char>, JsonV)) -> Seq<char>
    decreases member,
{
    string_text(member.0) + seq![':'] + json_text(member.1)
}

/// A string's characters with the JSON escapes applied.
pub open spec fn escaped_text(s: Seq<char>) -> Seq<char>
    decreases s.len(),
{
    if s.len() == 0 {
        Seq::<char>::empty()
    } else {
        escaped_char(s[0]) + escaped_text(s.drop_first())
    }
}

/// The escape sequence for one character inside a JSON string: quote and
/// backslash are escaped, control characters get their short escape where
/// one exists and a `\u00..` escape otherwise, everything else stands as is.
pub open spec fn escaped_char(c: char) -> Seq<char> {
    if c == '"' {
        seq!['\\', '"']
    } else if c == '\\' {
        seq!['\\', '\\']
    } else if c == '\u{8}' {
        seq!['\\', 'b']
    } else if c == '\t' {
        seq!['\\', 't']
    } else if c == '\n' {
        seq!['\\', 'n']
    } else if c == '\u{c}' {
        seq!['\\', 'f']
    } else if c == '\r' {
        seq!['\\', 'r']
    } else if (c as u32) < 32 {
        seq!['\\', 'u', '0', '0', hex_digit(((c as u32) / 16) as nat), hex_digit(
            ((c as u32) % 16) as nat,
        )]
    } else {
        seq![c]
    }
}

/// The lower-case hexadecimal digit for a value below 16.
pub open spec fn hex_digit(n: nat) -> char {
    if n == 0 {
        '0'
    } else if n == 1 {
        '1'
    } else if n == 2 {
        '2'
    } else if n == 3 {
        '3'
    } else if n == 4 {
        '4'
    } else if n == 5 {
        '5'
    } else if n == 6 {
        '6'
    } else if n == 7 {
        '7'
    } else if n == 8 {
        '8'
    } else if n == 9 {
        '9'
    } else if n == 10 {
        'a'
    } else if n == 11 {
        'b'
    } else if n == 12 {
        'c'
    } else if n == 13 {
        'd'
    } else if n == 14 {
        'e'
    } else {
        'f'
    }
}

/// The decimal digit character for a value below 10.
pub open spec fn dec_digit(n: nat) -> char {
    if n == 0 {
        '0'
    } else if n == 1 {
        '1'
    } else if n == 2 {
        '2'
    } else if n == 3 {
        '3'
    } else if n == 4 {
        '4'
    } else if n == 5 {
        '5'
    } else if n == 6 {
        '6'
    } else if n == 7 {
        '7'
    } else if n == 8 {
        '8'
    } else {
        '9'
    }
}

/// The decimal text of a non-negative integer.
pub open spec fn nat_text(n: nat) -> Seq<char>
    decreases n,
{
    if n < 10 {
        seq![dec_digit(n)]
    } else {
        nat_text(n / 10).push(dec_digit(n % 10))
    }
}

/// The decimal text of an integer, with a leading minus sign when negative.
pub open spec fn int_text(n: int) -> Seq<char> {
    if n >= 0 {
        nat_text(n as nat)
    } else {
        seq!['-'] + nat_text((-n) as nat)
    }
}

/// Appending an element to an array extends its text by a comma (after a
/// non-empty prefix) and the element's text.
pub proof fn lemma_arr_text_push(elems: Seq<JsonV>, v: JsonV)
    ensures
        arr_text(elems.push(v)) == if elems.len() == 0 {
            json_text(v)
        } else {
            arr_text(elems) + seq![','] + json_text(v)
        },
    decreases elems.len(),
{
    let whole = elems.push(v);
    assert(seq![v][0] == v);
    assert(seq![v].len() == 1);
    if elems.len() == 0 {
        assert(whole.len() == 1);
        assert(whole[0] == v);
    } else {
        assert(whole.len() >= 2);
        assert(whole[0] == elems[0]);
        assert(whole.drop_first() =~= elems.drop_first().push(v));
        lemma_arr_text_push(elems.drop_first(), v);
        if elems.len() == 1 {
            assert(arr_text(whole) =~= arr_text(elems) + seq![','] + json_text(v));
        } else {
            assert(arr_text(whole) =~= arr_text(elems) + seq![','] + json_text(v));
        }
    }
}

/// Appending a member to an object extends its text by a comma (after a
/// non-empty prefix) and the member's text.
pub proof fn lemma_obj_text_push(members: Seq<(Seq<char>, JsonV)>, m: (Seq<char>, JsonV))
    ensures
        obj_text(members.push(m)) == if members.len() == 0 {
            member_text(m)
        } else {
            obj_text(members) + seq![','] + member_text(m)
        },
    decreases members.len(),
{
    let whole = members.push(m);
    assert(seq![m][0] == m);
    if members.len() == 0 {
        assert(whole.len() == 1);
        assert(whole[0] == m);
    } else {
        assert(whole.len() >= 2);
        assert(whole[0] == members[0]);
        assert(whole.drop_first() =~= members.drop_first().push(m));
        lemma_obj_text_push(members.drop_first(), m);
        if members.len() == 1 {
            assert(obj_text(whole) =~= obj_text(members) + seq![','] + member_text(m));
        } else {
            assert(obj_text(whole) =~= obj_text(members) + seq![','] + member_text(m));
        }
    }
}

/// Appending a character to a string extends its escaped text by the
/// character's escape sequence.
pub proof fn lemma_escaped_text_push(s: Seq<char>, c: char)
    ensures
        escaped_text(s.push(c)) == escaped_text(s) + escaped_char(c),
    decreases s.len(),
{
    let whole = s.push(c);
    if s.len() == 0 {
        assert(whole[0] == c);
        assert(whole.drop_first() =~= Seq::<char>::empty());
        assert(escaped_text(whole.drop_first()) == Seq::<char>::empty());
        assert(escaped_text(whole) == escaped_char(c) + escaped_text(whole.drop_first()));
        assert(escaped_text(whole) =~= escaped_text(s) + escaped_char(c));
    } else {
        assert(whole[0] == s[0]);
        assert(whole.drop_first() =~= s.drop_first().push(c));
        lemma_escaped_text_push(s.drop_first(), c);
        assert(escaped_text(whole) == escaped_char(whole[0]) + escaped_text(whole.drop_first()));
        assert(escaped_text(whole.drop_first()) == escaped_text(s.drop_first()) + escaped_char(c));
        assert(escaped_text(s) == escaped_char(s[0]) + escaped_text(s.drop_first()));
        assert(escaped_text(whole) =~= escaped_text(s) + escaped_char(c));
    }
}

/// The member value for a key in an object, taking the latest member when
/// the key was given more than once, as later members overwrite earlier ones.
pub open spec fn obj_get(members: Seq<(Seq<char>, JsonV)>, key: Seq<char>) -> Option<JsonV>
    decreases members.len(),
{
    if members.len() == 0 {
        None
    } else if members.last().0 == key {
        Some(members.last().1)
    } else {
        obj_get(members.drop_last(), key)
    }
}

/// The member value for a key, over executable members.
pub fn obj_lookup<'a>(members: &'a Vec<(String, Json)>, key: &String) -> (r: Option<&'a Json>)
    ensures
        r matches Some(v) ==> obj_get(obj_view(members@), key@) == Some(json_view(*v)),
        r is None ==> obj_get(obj_view(members@), key@) is None,
{
    let ghost vs = obj_view(members@);
    proof {
        lemma_obj_view(members@);
        assert(vs.take(members@.len() as int) =~= vs);
    }
    let mut i = members.len();
    let mut res: Option<usize> = None;
    while i > 0
        invariant
            i <= members@.len(),
            vs == obj_view(members@),
            vs.len() == members@.len(),
            forall|k: int|
                0 <= k < members@.len() ==> #[trigger] vs[k] == (
                members@[k].0@,
                json_view(members@[k].1),
                ),
            res is None ==> obj_get(vs, key@) == obj_get(vs.take(i as int), key@),
            res matches Some(f) ==> f < members@.len() && obj_get(vs, key@) == Some(
                json_view(members@[f as int].1),
            ),
        decreases i,
    {
        let idx = i - 1;
        proof {
            assert(vs.take(idx as int + 1).last() == vs[idx as int]);
            assert(vs.take(idx as int + 1).drop_last() =~= vs.take(idx as int));
        }
        if res.is_none() && members[idx].0.eq(key) {
            proof {
                assert(vs[idx as int].0 == key@);
                assert(obj_get(vs.take(idx as int + 1), key@) == Some(vs[idx as int].1));
            }
            res = Some(idx);
        }
        i = idx;
    }
    proof {
        assert(vs.take(0) =~= Seq::<(Seq<char>, JsonV)>::empty());
    }
    match res {
        Some(f) => Some(&members[f].1),
        None => None,
    }
}

impl Json {
    /// A copy of the document with the same mathematical value.
    pub fn duplicate(&self) -> (r: Json)
        ensures
            r@ == self@,
        decreases *self,
    {
        match self {
            Json::Null => Json::Null,
            Json::Bool(b) => Json::Bool(*b),
            Json::Int(n) => Json::Int(*n),
            Json::Str(s) => Json::Str(s.clone()),
            Json::Arr(a) => Json::Arr(duplicate_elems(a)),
            Json::Obj(m) => Json::Obj(duplicate_members(m)),
        }
    }
}

/// Copies of an array's elements, with the same mathematical values.
fn duplicate_elems(a: &Vec<Json>) -> (r: Vec<Json>)
    ensures
        arr_view(r@) == arr_view(a@),
    decreases a@,
{
    let mut out: Vec<Json> = Vec::new();
    let n = a.len();
    let mut i: usize = 0;
    while i < n
        invariant
            i <= n,
            n == a@.len(),
            out@.len() == i,
            forall|k: int| 0 <= k < i ==> json_view(#[trigger] out@[k]) == json_view(a@[k]),
        decreases n - i,
    {
        out.push(a[i].duplicate());
        i = i + 1;
    }
    proof {
        lemma_arr_view(out@);
        lemma_arr_view(a@);
        assert(arr_view(out@) =~= arr_view(a@));
    }
    out
}

/// Copies of an object's members, with the same mathematical values.
pub fn duplicate_members(m: &Vec<(String, Json)>) -> (r: Vec<(String, Json)>)
    ensures
        obj_view(r@) == obj_view(m@),
    decreases m@,
{
    let mut out: Vec<(String, Json)> = Vec::new();
    let n = m.len();
    let mut i: usize = 0;
    while i < n
        invariant
            i <= n,
            n == m@.len(),
            out@.len() == i,
            forall|k: int|
                0 <= k < i ==> (#[trigger] out@[k]).0@ == m@[k].0@ && json_view(out@[k].1)
                    == json_view(m@[k].1),
        decreases n - i,
    {
        let member = &m[i];
        out.push((member.0.clone(), member.1.duplicate()));
        i = i + 1;
    }
    proof {
        lemma_obj_view(out@);
        lemma_obj_view(m@);
        assert(obj_view(out@) =~= obj_view(m@));
    }
    out
}

} // verus!
