//! A JSON tree and a verified printer for it. The wire codec encodes every
//! operation and event into this tree; the printer pins the exact textual
//! form, compatible with the common compact JSON rendering.

use vstd::prelude::*;

verus! {

broadcast use {vstd::std_specs::vec::group_vec_axioms, vstd::seq::group_seq_axioms};

/// A JSON value.
#[derive(Debug)]
pub enum Json {
    Null,
    Bool(bool),
    UInt(u64),
    Int(i64),
    Str(String),
    Arr(Vec<Json>),
    Obj(Vec<JsonMember>),
}

/// One key/value pair of a JSON object.
#[derive(Debug)]
pub struct JsonMember {
    pub key: String,
    pub value: Json,
}

/// Mathematical image of a JSON value.
#[verifier::ext_equal]
pub enum JsonV {
    Null,
    Bool(bool),
    UInt(u64),
    Int(i64),
    Str(Seq<char>),
    Arr(Seq<JsonV>),
    Obj(Seq<(Seq<char>, JsonV)>),
}

impl Json {
    /// The mathematical image of this value.
    pub open spec fn view_rec(self) -> JsonV
        decreases self,
    {
        match self {
            Json::Null => JsonV::Null,
            Json::Bool(b) => JsonV::Bool(b),
            Json::UInt(n) => JsonV::UInt(n),
            Json::Int(n) => JsonV::Int(n),
            Json::Str(s) => JsonV::Str(s@),
            Json::Arr(items) => JsonV::Arr(
                Seq::new(
                    items@.len(),
                    |i: int|
                        if 0 <= i < items@.len() {
                            items@[i].view_rec()
                        } else {
                            JsonV::Null
                        },
                ),
            ),
            Json::Obj(members) => JsonV::Obj(
                Seq::new(
                    members@.len(),
                    |i: int|
                        if 0 <= i < members@.len() {
                            (members@[i].key@, members@[i].value.view_rec())
                        } else {
                            (Seq::empty(), JsonV::Null)
                        },
                ),
            ),
        }
    }
}

impl View for Json {
    type V = JsonV;

    open spec fn view(&self) -> JsonV {
        self.view_rec()
    }
}

/// The key/value view of an object's member list.
pub open spec fn spec_members_view(ms: Seq<JsonMember>) -> Seq<(Seq<char>, JsonV)> {
    Seq::new(ms.len(), |i: int| (ms[i].key@, ms[i].value@))
}

/// Looks a key up in an object's members: the first match wins.
pub open spec fn spec_obj_get(members: Seq<(Seq<char>, JsonV)>, key: Seq<char>) -> Option<JsonV>
    decreases members.len(),
{
    if members.len() == 0 {
        None
    } else if members[0].0 == key {
        Some(members[0].1)
    } else {
        spec_obj_get(members.drop_first(), key)
    }
}

/// The decimal digit `d`.
pub open spec fn spec_digit(d: nat) -> Seq<char> {
    if d == 0 {
        "0"@
    } else if d == 1 {
        "1"@
    } else if d == 2 {
        "2"@
    } else if d == 3 {
        "3"@
    } else if d == 4 {
        "4"@
    } else if d == 5 {
        "5"@
    } else if d == 6 {
        "6"@
    } else if d == 7 {
        "7"@
    } else if d == 8 {
        "8"@
    } else {
        "9"@
    }
}

/// The decimal rendering of a natural number, no leading zeros.
pub open spec fn spec_dec(n: nat) -> Seq<char>
    decreases n,
{
    if n < 10 {
        spec_digit(n)
    } else {
        spec_dec(n / 10) + spec_digit(n % 10)
    }
}

/// The escaped form of one character inside a JSON string literal.
pub open spec fn spec_escape_char(c: char) -> Seq<char> {
    if c == '"' {
        "\\\""@
    } else if c == '\\' {
        "\\\\"@
    } else if c == '\n' {
        "\\n"@
    } else if c == '\r' {
        "\\r"@
    } else if c == '\t' {
        "\\t"@
    } else if (c as u32) < 32 {
        "\\u00"@ + spec_hex_digit((c as u32 / 16) as nat) + spec_hex_digit((c as u32 % 16) as nat)
    } else {
        seq![c]
    }
}

/// The lowercase hexadecimal digit `d`.
pub open spec fn spec_hex_digit(d: nat) -> Seq<char> {
    if d < 10 {
        spec_digit(d)
    } else if d == 10 {
        "a"@
    } else if d == 11 {
        "b"@
    } else if d == 12 {
        "c"@
    } else if d == 13 {
        "d"@
    } else if d == 14 {
        "e"@
    } else {
        "f"@
    }
}

/// The escaped form of the first `i` characters of a string body.
pub open spec fn spec_escape_prefix(t: Seq<char>, i: int) -> Seq<char>
    decreases i,
{
    if i <= 0 {
        Seq::empty()
    } else {
        spec_escape_prefix(t, i - 1) + spec_escape_char(t[i - 1])
    }
}

/// The escaped body of a JSON string literal.
pub open spec fn spec_escape(t: Seq<char>) -> Seq<char> {
    spec_escape_prefix(t, t.len() as int)
}

/// The compact textual form of a JSON value: no spaces, object members in
/// order, strings escaped.
pub open spec fn spec_print(j: JsonV) -> Seq<char>
    decreases j,
{
    match j {
        JsonV::Null => "null"@,
        JsonV::Bool(b) => if b {
            "true"@
        } else {
            "false"@
        },
        JsonV::UInt(n) => spec_dec(n as nat),
        JsonV::Int(n) => if n >= 0 {
            spec_dec(n as nat)
        } else {
            "-"@ + spec_dec((-(n as int)) as nat)
        },
        JsonV::Str(t) => "\""@ + spec_escape(t) + "\""@,
        JsonV::Arr(items) => "["@ + spec_print_arr_prefix(items, items.len() as int) + "]"@,
        JsonV::Obj(members) => "{"@ + spec_print_obj_prefix(members, members.len() as int) + "}"@,
    }
}

/// The first `i` array elements, comma separated.
pub open spec fn spec_print_arr_prefix(items: Seq<JsonV>, i: int) -> Seq<char>
    decreases items, i,
{
    if i <= 0 || i > items.len() {
        Seq::empty()
    } else if i == 1 {
        spec_print(items[0])
    } else {
        spec_print_arr_prefix(items, i - 1) + ","@ + spec_print(items[i - 1])
    }
}

/// The first `i` object members, comma separated, each `"key":value`.
pub open spec fn spec_print_obj_prefix(members: Seq<(Seq<char>, JsonV)>, i: int) -> Seq<char>
    decreases members, i,
{
    if i <= 0 || i > members.len() {
        Seq::empty()
    } else if i == 1 {
        spec_print_member(members[0])
    } else {
        spec_print_obj_prefix(members, i - 1) + ","@ + spec_print_member(members[i - 1])
    }
}

/// One object member: the escaped key, a colon, the value.
pub open spec fn spec_print_member(m: (Seq<char>, JsonV)) -> Seq<char>
    decreases m,
{
    "\""@ + spec_escape(m.0) + "\":"@ + spec_print(m.1)
}

/// Relies on std's `String::push`: appends exactly the one character.
#[verifier::external_body]
fn push_char(s: &mut String, c: char)
    ensures
        final(s)@ == old(s)@.push(c),
{
    s.push(c);
}

/// Appends the decimal rendering of `n`.
pub(crate) fn write_u64(n: u64, out: &mut String)
    ensures
        final(out)@ == old(out)@ + spec_dec(n as nat),
    decreases n,
{
    if n < 10 {
        write_digit(n, out);
    } else {
        write_u64(n / 10, out);
        write_digit(n % 10, out);
    }
}

/// Appends the digit `d`, which is below ten.
fn write_digit(d: u64, out: &mut String)
    requires
        d < 10,
    ensures
        final(out)@ == old(out)@ + spec_digit(d as nat),
{
    if d == 0 {
        out.append("0");
    } else if d == 1 {
        out.append("1");
    } else if d == 2 {
        out.append("2");
    } else if d == 3 {
        out.append("3");
    } else if d == 4 {
        out.append("4");
    } else if d == 5 {
        out.append("5");
    } else if d == 6 {
        out.append("6");
    } else if d == 7 {
        out.append("7");
    } else if d == 8 {
        out.append("8");
    } else {
        out.append("9");
    }
}

/// Appends the lowercase hexadecimal digit `d`, which is below sixteen.
fn write_hex_digit(d: u32, out: &mut String)
    requires
        d < 16,
    ensures
        final(out)@ == old(out)@ + spec_hex_digit(d as nat),
{
    if d < 10 {
        write_digit(d as u64, out);
    } else if d == 10 {
        out.append("a");
    } else if d == 11 {
        out.append("b");
    } else if d == 12 {
        out.append("c");
    } else if d == 13 {
        out.append("d");
    } else if d == 14 {
        out.append("e");
    } else {
        out.append("f");
    }
}

/// Appends the escaped body of a string literal.
fn write_escaped(t: &str, out: &mut String)
    ensures
        final(out)@ == old(out)@ + spec_escape(t@),
{
    let n = t.unicode_len();
    let mut i: usize = 0;
    while i < n
        invariant
            n == t@.len(),
            i <= n,
            out@ == old(out)@ + spec_escape_prefix(t@, i as int),
        decreases n - i,
    {
        let c = t.get_char(i);
        if c == '"' {
            out.append("\\\"");
        } else if c == '\\' {
            out.append("\\\\");
        } else if c == '\n' {
            out.append("\\n");
        } else if c == '\r' {
            out.append("\\r");
        } else if c == '\t' {
            out.append("\\t");
        } else if (c as u32) < 32 {
            out.append("\\u00");
            write_hex_digit((c as u32) / 16, out);
            write_hex_digit((c as u32) % 16, out);
        } else {
            push_char(out, c);
        }
        i = i + 1;
    }
}

/// Appends the compact textual form of a JSON value.
#[verifier::loop_isolation(false)]
pub fn write_json(j: &Json, out: &mut String)
    ensures
        final(out)@ == old(out)@ + spec_print(j@),
    decreases j,
{
    match j {
        Json::Null => out.append("null"),
        Json::Bool(b) => {
            if *b {
                out.append("true");
            } else {
                out.append("false");
            }
        },
        Json::UInt(n) => write_u64(*n, out),
        Json::Int(n) => {
            if *n >= 0 {
                write_u64(*n as u64, out);
            } else {
                out.append("-");
                let neg: i128 = 0i128 - (*n as i128);
                let magnitude = #[verifier::truncate] (neg as u64);
                proof {
                    assert(neg == -(*n as int));
                    assert(0 < neg <= u64::MAX);
                    assert(magnitude == (-(*n as int)) as nat);
                }
                write_u64(magnitude, out);
                proof {
                    assert(out@ =~= old(out)@ + spec_print(j@));
                }
            }
        },
        Json::Str(s) => {
            out.append("\"");
            write_escaped(s.as_str(), out);
            out.append("\"");
            proof {
                assert(out@ =~= old(out)@ + spec_print(j@));
            }
        },
        Json::Arr(items) => {
            out.append("[");
            let ghost base = out@;
            let ghost vs = j@->Arr_0;
            proof {
                assert(vs.len() == items@.len());
            }
            let mut i: usize = 0;
            while i < items.len()
                invariant
                    i <= items@.len(),
                    out@ == base + spec_print_arr_prefix(vs, i as int),
                decreases items@.len() - i,
            {
                if i > 0 {
                    out.append(",");
                }
                proof {
                    assert(decreases_to!(*j => items@[i as int]));
                }
                write_json(&items[i], out);
                proof {
                    assert(vs[i as int] == items@[i as int].view_rec());
                    assert(out@ =~= base + spec_print_arr_prefix(vs, i + 1 as int));
                }
                i = i + 1;
            }
            out.append("]");
            proof {
                assert(out@ =~= old(out)@ + spec_print(j@));
            }
        },
        Json::Obj(members) => {
            out.append("{");
            let ghost base = out@;
            let ghost vs = j@->Obj_0;
            proof {
                assert(vs.len() == members@.len());
            }
            let mut i: usize = 0;
            while i < members.len()
                invariant
                    i <= members@.len(),
                    out@ == base + spec_print_obj_prefix(vs, i as int),
                decreases members@.len() - i,
            {
                if i > 0 {
                    out.append(",");
                }
                out.append("\"");
                write_escaped(members[i].key.as_str(), out);
                out.append("\":");
                proof {
                    assert(decreases_to!(*j => members@[i as int].value));
                }
                write_json(&members[i].value, out);
                proof {
                    assert(vs[i as int] == (members@[i as int].key@, members@[
                        i as int
                    ].value.view_rec()));
                    assert(spec_print_member(vs[i as int]) == "\""@ + spec_escape(
                        members@[i as int].key@,
                    ) + "\":"@ + spec_print(members@[i as int].value.view_rec()));
                    assert(out@ =~= base + spec_print_obj_prefix(vs, i + 1 as int));
                }
                i = i + 1;
            }
            out.append("}");
            proof {
                assert(out@ =~= old(out)@ + spec_print(j@));
            }
        },
    }
}

/// The compact textual form of a JSON value.
pub fn print_json(j: &Json) -> (r: String)
    ensures
        r@ == spec_print(j@),
{
    let mut out = String::new();
    write_json(j, &mut out);
    out
}

} // verus!
