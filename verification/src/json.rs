//! A model of JSON values, with a verified writer.
//!
//! Request bodies are built as [`Json`] values and written to text with
//! [`to_text`]; response bodies are parsed into [`Json`] values before the
//! reply is extracted from them.

use vstd::prelude::*;

verus! {

/// A JSON value, holding exactly what the chat pipeline reads and writes:
/// object fields, array elements, strings and booleans. The numeric value of
/// a number is never read, so `Num` keeps only its decimal text.
#[derive(Debug)]
pub enum Json {
    Null,
    Bool(bool),
    /// A number, as its decimal text.
    Num(String),
    Str(String),
    Arr(Vec<Json>),
    Obj(Vec<(String, Json)>),
}

/// The escape for one character inside a JSON string literal: quote,
/// backslash and control characters are escaped, all else stands as itself.
pub open spec fn escape_char(c: char) -> Seq<char> {
    if c == '"' {
        "\\\""@
    } else if c == '\\' {
        "\\\\"@
    } else if c == '\n' {
        "\\n"@
    } else if c == '\r' {
        "\\r"@
    } else if c == '\t' {
        "\\t"@
    } else if (c as u32) == 8 {
        "\\b"@
    } else if (c as u32) == 12 {
        "\\f"@
    } else if (c as u32) < 32 {
        "\\u00"@ + seq![hex_digit(((c as u32) / 16) as int), hex_digit(((c as u32) % 16) as int)]
    } else {
        seq![c]
    }
}

/// The hexadecimal digit for a value below 16.
pub open spec fn hex_digit(n: int) -> char {
    if n == 0 { '0' } else if n == 1 { '1' } else if n == 2 { '2' } else if n == 3 { '3' }
    else if n == 4 { '4' } else if n == 5 { '5' } else if n == 6 { '6' } else if n == 7 { '7' }
    else if n == 8 { '8' } else if n == 9 { '9' } else if n == 10 { 'a' } else if n == 11 { 'b' }
    else if n == 12 { 'c' } else if n == 13 { 'd' } else if n == 14 { 'e' } else { 'f' }
}

/// A string's characters, each escaped for a JSON string literal.
pub open spec fn escape(s: Seq<char>) -> Seq<char>
    decreases s.len(),
{
    if s.len() == 0 {
        Seq::empty()
    } else {
        escape_char(s[0]) + escape(s.drop_first())
    }
}

/// The text form of a JSON value: compact, with no spacing, object fields
/// in the order they stand in the value, strings escaped by [`escape`].
pub open spec fn json_text(j: Json) -> Seq<char>
    decreases j,
{
    match j {
        Json::Null => "null"@,
        Json::Bool(b) => if b { "true"@ } else { "false"@ },
        Json::Num(s) => s@,
        Json::Str(s) => "\""@ + escape(s@) + "\""@,
        Json::Arr(items) => "["@ + items_text(items@) + "]"@,
        Json::Obj(fields) => "{"@ + fields_text(fields@) + "}"@,
    }
}

/// The text of an array's elements, comma-separated.
pub open spec fn items_text(items: Seq<Json>) -> Seq<char>
    decreases items,
{
    if items.len() == 0 {
        Seq::empty()
    } else if items.len() == 1 {
        json_text(items[0])
    } else {
        json_text(items[0]) + ","@ + items_text(items.drop_first())
    }
}

/// The text of one object field: quoted escaped key, colon, value.
pub open spec fn field_text(f: (String, Json)) -> Seq<char>
    decreases f,
{
    "\""@ + escape(f.0@) + "\":"@ + json_text(f.1)
}

/// The text of an object's fields, comma-separated.
pub open spec fn fields_text(fields: Seq<(String, Json)>) -> Seq<char>
    decreases fields,
{
    if fields.len() == 0 {
        Seq::empty()
    } else if fields.len() == 1 {
        field_text(fields[0])
    } else {
        field_text(fields[0]) + ","@ + fields_text(fields.drop_first())
    }
}

/// The value under `key` in an object's fields: the first binding of the
/// key, or `None` where the key does not occur. (Objects handled by this
/// library carry each key at most once.)
pub open spec fn obj_get(fields: Seq<(String, Json)>, key: Seq<char>) -> Option<Json>
    decreases fields.len(),
{
    if fields.len() == 0 {
        Option::None
    } else if fields[0].0@ == key {
        Option::Some(fields[0].1)
    } else {
        obj_get(fields.drop_first(), key)
    }
}

/// The height of a JSON value: how deep arrays and objects nest. It serves
/// as the termination measure of the writer.
pub open spec fn height(j: Json) -> nat
    decreases j,
{
    match j {
        Json::Null => 0,
        Json::Bool(_) => 0,
        Json::Num(_) => 0,
        Json::Str(_) => 0,
        Json::Arr(items) => 1 + items_height(items@),
        Json::Obj(fields) => 1 + fields_height(fields@),
    }
}

/// The summed heights of an array's elements.
pub open spec fn items_height(items: Seq<Json>) -> nat
    decreases items,
{
    if items.len() == 0 {
        0
    } else {
        height(items[0]) + items_height(items.drop_first())
    }
}

/// The summed heights of an object's field values.
pub open spec fn fields_height(fields: Seq<(String, Json)>) -> nat
    decreases fields,
{
    if fields.len() == 0 {
        0
    } else {
        height(fields[0].1) + fields_height(fields.drop_first())
    }
}

/// No element of an array stands higher than the array's elements together.
pub proof fn lemma_items_height(items: Seq<Json>, i: int)
    requires
        0 <= i < items.len(),
    ensures
        height(items[i]) <= items_height(items),
    decreases i,
{
    if i > 0 {
        lemma_items_height(items.drop_first(), i - 1);
    }
}

/// No field value of an object stands higher than the field values together.
pub proof fn lemma_fields_height(fields: Seq<(String, Json)>, i: int)
    requires
        0 <= i < fields.len(),
    ensures
        height(fields[i].1) <= fields_height(fields),
    decreases i,
{
    if i > 0 {
        lemma_fields_height(fields.drop_first(), i - 1);
    }
}

/// Relies on String::push: it appends the given character to the end of
/// the string.
pub assume_specification[ String::push ](s: &mut String, c: char)
    ensures
        final(s)@ == old(s)@.push(c),
;

/// Escaping a string one character longer appends that character's escape.
pub proof fn lemma_escape_push(s: Seq<char>, c: char)
    ensures
        escape(s.push(c)) == escape(s) + escape_char(c),
    decreases s.len(),
{
    if s.len() == 0 {
        assert(s.push(c)[0] == c);
        assert(s.push(c).drop_first() =~= Seq::<char>::empty());
        assert(escape(s.push(c)) == escape_char(c) + escape(Seq::<char>::empty()));
        assert(escape(s.push(c)) =~= escape(s) + escape_char(c));
    } else {
        lemma_escape_push(s.drop_first(), c);
        assert(s.push(c).drop_first() =~= s.drop_first().push(c));
        assert(escape(s.push(c)) =~= escape(s) + escape_char(c));
    }
}

fn hex_digit_char(n: u32) -> (c: char)
    requires
        n < 16,
    ensures
        c == hex_digit(n as int),
{
    if n == 0 { '0' } else if n == 1 { '1' } else if n == 2 { '2' } else if n == 3 { '3' }
    else if n == 4 { '4' } else if n == 5 { '5' } else if n == 6 { '6' } else if n == 7 { '7' }
    else if n == 8 { '8' } else if n == 9 { '9' } else if n == 10 { 'a' } else if n == 11 { 'b' }
    else if n == 12 { 'c' } else if n == 13 { 'd' } else if n == 14 { 'e' } else { 'f' }
}

/// The characters of `s`, escaped for the inside of a JSON string literal.
pub fn escape_str(s: &str) -> (r: String)
    ensures
        r@ == escape(s@),
{
    let len = s.unicode_len();
    let mut out = String::new();
    let mut i: usize = 0;
    while i < len
        invariant
            i <= len,
            len == s@.len(),
            out@ == escape(s@.take(i as int)),
        decreases len - i,
    {
        let c = s.get_char(i);
        proof {
            lemma_escape_push(s@.take(i as int), c);
            assert(s@.take(i as int).push(c) =~= s@.take(i + 1 as int));
        }
        if c == '"' {
            out.append("\\\"");
        } else if c == '\\' {
            out.append("\\\\");
        } else if c == '\n' {
            out.append("\\n");
        } else if c == '\r' {
            out.append("\\r");
        } else if c == '\t' {
            out.append("\\t");
        } else if (c as u32) == 8 {
            out.append("\\b");
        } else if (c as u32) == 12 {
            out.append("\\f");
        } else if (c as u32) < 32 {
            out.append("\\u00");
            out.push(hex_digit_char((c as u32) / 16));
            out.push(hex_digit_char((c as u32) % 16));
            proof {
                assert(out@ =~= escape(s@.take(i as int)) + escape_char(c));
            }
        } else {
            out.push(c);
            proof {
                assert(out@ =~= escape(s@.take(i as int)) + escape_char(c));
            }
        }
        i = i + 1;
    }
    proof {
        assert(s@.take(len as int) =~= s@);
    }
    out
}

/// Rendering an array one element longer appends a comma (after a first
/// element) and the new element's text.
pub proof fn lemma_items_text_push(s: Seq<Json>, x: Json)
    ensures
        items_text(s.push(x)) == if s.len() == 0 {
            json_text(x)
        } else {
            items_text(s) + ","@ + json_text(x)
        },
    decreases s.len(),
{
    if s.len() == 0 {
        assert(s.push(x)[0] == x);
        assert(items_text(s.push(x)) =~= json_text(x));
    } else if s.len() == 1 {
        assert(s.push(x)[0] == s[0]);
        assert(s.push(x).drop_first() =~= seq![x]);
        assert(items_text(seq![x]) == json_text(x));
        assert(items_text(s.push(x)) =~= items_text(s) + ","@ + json_text(x));
    } else {
        lemma_items_text_push(s.drop_first(), x);
        assert(s.push(x)[0] == s[0]);
        assert(s.push(x).drop_first() =~= s.drop_first().push(x));
        assert(items_text(s.push(x)) =~= items_text(s) + ","@ + json_text(x));
    }
}

/// Rendering an object one field longer appends a comma (after a first
/// field) and the new field's text.
pub proof fn lemma_fields_text_push(s: Seq<(String, Json)>, x: (String, Json))
    ensures
        fields_text(s.push(x)) == if s.len() == 0 {
            field_text(x)
        } else {
            fields_text(s) + ","@ + field_text(x)
        },
    decreases s.len(),
{
    if s.len() == 0 {
        assert(s.push(x)[0] == x);
        assert(fields_text(s.push(x)) =~= field_text(x));
    } else if s.len() == 1 {
        assert(s.push(x)[0] == s[0]);
        assert(s.push(x).drop_first() =~= seq![x]);
        assert(fields_text(seq![x]) == field_text(x));
        assert(fields_text(s.push(x)) =~= fields_text(s) + ","@ + field_text(x));
    } else {
        lemma_fields_text_push(s.drop_first(), x);
        assert(s.push(x)[0] == s[0]);
        assert(s.push(x).drop_first() =~= s.drop_first().push(x));
        assert(fields_text(s.push(x)) =~= fields_text(s) + ","@ + field_text(x));
    }
}

/// Writes a JSON value as text: compact, fields in order, strings escaped.
pub fn to_text(j: &Json) -> (r: String)
    ensures
        r@ == json_text(*j),
    decreases height(*j),
{
    match j {
        Json::Null => String::from_str("null"),
        Json::Bool(b) => {
            if *b {
                String::from_str("true")
            } else {
                String::from_str("false")
            }
        },
        Json::Num(s) => s.clone(),
        Json::Str(s) => {
            let mut out = String::from_str("\"");
            out.append(escape_str(s.as_str()).as_str());
            out.append("\"");
            out
        },
        Json::Arr(items) => {
            let mut out = String::from_str("[");
            let mut i: usize = 0;
            while i < items.len()
                invariant
                    *j == Json::Arr(*items),
                    i <= items.len(),
                    out@ == "["@ + items_text(items@.take(i as int)),
                decreases items.len() - i,
            {
                proof {
                    lemma_items_text_push(items@.take(i as int), items@[i as int]);
                    assert(items@.take(i as int).push(items@[i as int]) =~= items@.take(
                        i + 1 as int,
                    ));
                    lemma_items_height(items@, i as int);
                    assert(height(*j) == 1 + items_height(items@));
                    assert(height(items@[i as int]) < height(*j));
                }
                if i > 0 {
                    out.append(",");
                }
                let piece = to_text(&items[i]);
                out.append(piece.as_str());
                i = i + 1;
            }
            proof {
                assert(items@.take(items@.len() as int) =~= items@);
            }
            out.append("]");
            out
        },
        Json::Obj(fields) => {
            let mut out = String::from_str("{");
            let mut i: usize = 0;
            while i < fields.len()
                invariant
                    *j == Json::Obj(*fields),
                    i <= fields.len(),
                    out@ == "{"@ + fields_text(fields@.take(i as int)),
                decreases fields.len() - i,
            {
                proof {
                    lemma_fields_text_push(fields@.take(i as int), fields@[i as int]);
                    assert(fields@.take(i as int).push(fields@[i as int]) =~= fields@.take(
                        i + 1 as int,
                    ));
                    lemma_fields_height(fields@, i as int);
                    assert(height(*j) == 1 + fields_height(fields@));
                    assert(height(fields@[i as int].1) < height(*j));
                }
                if i > 0 {
                    out.append(",");
                }
                out.append("\"");
                let key = escape_str(fields[i].0.as_str());
                out.append(key.as_str());
                out.append("\":");
                let piece = to_text(&fields[i].1);
                out.append(piece.as_str());
                i = i + 1;
            }
            proof {
                assert(fields@.take(fields@.len() as int) =~= fields@);
            }
            out.append("}");
            out
        },
    }
}

/// Looks `key` up among an object's fields, returning the first value
/// bound to it.
pub fn obj_lookup<'a>(fields: &'a Vec<(String, Json)>, key: &String) -> (r: Option<&'a Json>)
    ensures
        match r {
            Option::Some(v) => obj_get(fields@, key@) == Option::Some(*v),
            Option::None => obj_get(fields@, key@) is None,
        },
{
    let mut i: usize = 0;
    proof {
        assert(fields@.skip(0) =~= fields@);
    }
    while i < fields.len()
        invariant
            i <= fields.len(),
            obj_get(fields@, key@) == obj_get(fields@.skip(i as int), key@),
        decreases fields.len() - i,
    {
        let f = &fields[i];
        proof {
            assert(fields@.skip(i as int)[0] == fields@[i as int]);
        }
        if f.0 == *key {
            return Some(&f.1);
        }
        proof {
            assert(fields@.skip(i as int).drop_first() =~= fields@.skip(i + 1 as int));
        }
        i = i + 1;
    }
    proof {
        assert(fields@.skip(fields@.len() as int) =~= Seq::<(String, Json)>::empty());
    }
    None
}

} // verus!
