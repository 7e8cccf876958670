//! JSON values as the command line shows them in text form: members as
//! `key: value` lines, nested objects and arrays indented below their key,
//! array items as `- item` lines.

use crate::cli::status_cmd::line_texts;
use crate::text::{cat, parse_i64, parse_i64_spec, push_char, str_eq};
use vstd::prelude::*;

verus! {

broadcast use vstd::std_specs::vec::group_vec_axioms;

/// A JSON value.  Numbers are held as their JSON text; arrays and objects
/// also carry their compact JSON text, which is how they are shown as items
/// of an array.
pub enum JsonValue {
    Null,
    Bool(bool),
    /// A number, as JSON writes it
    Number(String),
    /// A string
    Text(String),
    /// The items, and the compact JSON text of the array
    Array(Vec<JsonValue>, String),
    /// The members in order, and the compact JSON text of the object
    Object(Vec<JsonMember>, String),
}

/// A member of a JSON object.
pub struct JsonMember {
    pub key: String,
    pub value: JsonValue,
}

/// Whether a value is an object or an array.
pub open spec fn is_composite(v: JsonValue) -> bool {
    v is Array || v is Object
}

/// The text of a value on one line: `null`, `true`/`false`, the number, the
/// string itself, or the compact JSON of an array or object.
pub open spec fn scalar_text(v: JsonValue) -> Seq<char> {
    match v {
        JsonValue::Null => "null"@,
        JsonValue::Bool(b) => if b {
            "true"@
        } else {
            "false"@
        },
        JsonValue::Number(n) => n@,
        JsonValue::Text(s) => s@,
        JsonValue::Array(_, compact) => compact@,
        JsonValue::Object(_, compact) => compact@,
    }
}

/// The indentation of a nesting level: two spaces per level.
pub open spec fn indent_text(level: nat) -> Seq<char> {
    Seq::new(2 * level, |i: int| ' ')
}

/// The lines of a value at nesting level `level`.
pub open spec fn value_lines(v: JsonValue, level: nat) -> Seq<Seq<char>>
    decreases v, 0nat,
{
    match v {
        JsonValue::Object(members, _) => {
            proof {
                assert(decreases_to!(members => members@));
            }
            member_lines(members@, level)
        },
        JsonValue::Array(items, _) => items@.map_values(
            |it: JsonValue| indent_text(level) + "- "@ + scalar_text(it),
        ),
        _ => seq![indent_text(level) + scalar_text(v)],
    }
}

/// The lines of the members `ms` of an object at nesting level `level`.
pub open spec fn member_lines(ms: Seq<JsonMember>, level: nat) -> Seq<Seq<char>>
    decreases ms, ms.len(),
{
    if ms.len() == 0 {
        seq![]
    } else {
        let last = ms[ms.len() - 1];
        let head = indent_text(level) + last.key@;
        let rest = ms.subrange(0, ms.len() - 1);
        let these = match last.value {
            JsonValue::Object(_, _) => {
                proof {
                    assert(decreases_to!(ms => ms[ms.len() - 1]));
                }
                seq![head + ":"@] + value_lines(last.value, level + 1)
            },
            JsonValue::Array(items, _) => {
                proof {
                    assert(decreases_to!(ms => ms[ms.len() - 1]));
                    assert(decreases_to!(items => items@));
                }
                seq![head + ":"@] + item_lines(items@, level + 1)
            },
            _ => seq![head + ": "@ + scalar_text(last.value)],
        };
        member_lines(rest, level) + these
    }
}

/// The lines of the items `items` of an array shown under a key, each at
/// nesting level `level`.
pub open spec fn item_lines(items: Seq<JsonValue>, level: nat) -> Seq<Seq<char>>
    decreases items, items.len(),
{
    if items.len() == 0 {
        seq![]
    } else {
        proof {
            assert(decreases_to!(items => items[items.len() - 1]));
        }
        item_lines(items.subrange(0, items.len() - 1), level) + value_lines(
            items[items.len() - 1],
            level,
        )
    }
}

fn scalar_text_exec(v: &JsonValue) -> (s: String)
    ensures
        s@ == scalar_text(*v),
{
    match v {
        JsonValue::Null => "null".to_owned(),
        JsonValue::Bool(b) => if *b {
            "true".to_owned()
        } else {
            "false".to_owned()
        },
        JsonValue::Number(n) => n.clone(),
        JsonValue::Text(s) => s.clone(),
        JsonValue::Array(_, compact) => compact.clone(),
        JsonValue::Object(_, compact) => compact.clone(),
    }
}

fn push_line(lines: &mut Vec<String>, l: String)
    ensures
        line_texts(final(lines)@) == line_texts(old(lines)@).push(l@),
{
    lines.push(l);
    assert(line_texts(lines@) =~= line_texts(old(lines)@).push(l@));
}

fn deeper(prefix: &String, Ghost(level): Ghost<nat>) -> (p: String)
    requires
        prefix@ == indent_text(level),
    ensures
        p@ == indent_text(level + 1),
{
    let mut p = prefix.clone();
    push_char(&mut p, ' ');
    push_char(&mut p, ' ');
    assert(p@ =~= indent_text(level + 1));
    p
}

fn push_value_lines(v: &JsonValue, prefix: &String, Ghost(level): Ghost<nat>, lines: &mut Vec<String>)
    requires
        prefix@ == indent_text(level),
    ensures
        line_texts(final(lines)@) == line_texts(old(lines)@) + value_lines(*v, level),
    decreases v, 1nat,
{
    let ghost start = line_texts(lines@);
    match v {
        JsonValue::Object(members, compact) => {
            let mut i: usize = 0;
            while i < members.len()
                invariant
                    *v == JsonValue::Object(*members, *compact),
                    i <= members@.len(),
                    prefix@ == indent_text(level),
                    line_texts(lines@) == start + member_lines(members@.subrange(0, i as int), level),
                decreases members@.len() - i,
            {
                let m = &members[i];
                let ghost sub = members@.subrange(0, i + 1);
                assert(sub.subrange(0, sub.len() - 1) =~= members@.subrange(0, i as int));
                assert(sub[sub.len() - 1] == members@[i as int]);
                let head = cat(prefix.clone(), m.key.as_str());
                match &m.value {
                    JsonValue::Object(_, _) => {
                        push_line(lines, cat(head, ":"));
                        let next = deeper(prefix, Ghost(level));
                        proof {
                            assert(decreases_to!(*v => v->Object_0));
                            assert(decreases_to!(*members => members@));
                            assert(decreases_to!(members@ => members@[i as int]));
                            assert(decreases_to!(members@[i as int] => members@[i as int].value));
                        }
                        push_value_lines(&m.value, &next, Ghost(level + 1), lines);
                    },
                    JsonValue::Array(items, _) => {
                        push_line(lines, cat(head, ":"));
                        let next = deeper(prefix, Ghost(level));
                        proof {
                            assert(decreases_to!(*v => v->Object_0));
                            assert(decreases_to!(*members => members@));
                            assert(decreases_to!(members@ => members@[i as int]));
                            assert(decreases_to!(members@[i as int] => members@[i as int].value));
                            assert(decreases_to!(members@[i as int].value => *items));
                            assert(decreases_to!(*items => items@));
                        }
                        push_item_lines(items, &next, Ghost(level + 1), lines);
                    },
                    _ => {
                        let t = cat(cat(head, ": "), scalar_text_exec(&m.value).as_str());
                        push_line(lines, t);
                    },
                }
                assert(line_texts(lines@) =~= start + member_lines(sub, level));
                i = i + 1;
            }
            assert(members@.subrange(0, members@.len() as int) =~= members@);
        },
        JsonValue::Array(items, _) => {
            let mut i: usize = 0;
            while i < items.len()
                invariant
                    i <= items@.len(),
                    prefix@ == indent_text(level),
                    line_texts(lines@) == start + items@.subrange(0, i as int).map_values(
                        |it: JsonValue| indent_text(level) + "- "@ + scalar_text(it),
                    ),
                decreases items@.len() - i,
            {
                let t = cat(cat(prefix.clone(), "- "), scalar_text_exec(&items[i]).as_str());
                push_line(lines, t);
                assert(items@.subrange(0, i + 1).map_values(
                    |it: JsonValue| indent_text(level) + "- "@ + scalar_text(it),
                ) =~= items@.subrange(0, i as int).map_values(
                    |it: JsonValue| indent_text(level) + "- "@ + scalar_text(it),
                ).push(indent_text(level) + "- "@ + scalar_text(items@[i as int])));
                i = i + 1;
            }
            assert(items@.subrange(0, items@.len() as int) =~= items@);
        },
        _ => {
            let t = cat(prefix.clone(), scalar_text_exec(v).as_str());
            push_line(lines, t);
            assert(line_texts(lines@) =~= start + value_lines(*v, level));
        },
    }
}

fn push_item_lines(items: &Vec<JsonValue>, prefix: &String, Ghost(level): Ghost<nat>, lines: &mut Vec<String>)
    requires
        prefix@ == indent_text(level),
    ensures
        line_texts(final(lines)@) == line_texts(old(lines)@) + item_lines(items@, level),
    decreases items@, 1nat,
{
    let ghost start = line_texts(lines@);
    let mut i: usize = 0;
    while i < items.len()
        invariant
            i <= items@.len(),
            prefix@ == indent_text(level),
            line_texts(lines@) == start + item_lines(items@.subrange(0, i as int), level),
        decreases items@.len() - i,
    {
        let ghost sub = items@.subrange(0, i + 1);
        assert(sub.subrange(0, sub.len() - 1) =~= items@.subrange(0, i as int));
        assert(sub[sub.len() - 1] == items@[i as int]);
        proof {
            assert(decreases_to!(items@ => items@[i as int]));
        }
        push_value_lines(&items[i], prefix, Ghost(level), lines);
        assert(line_texts(lines@) =~= start + item_lines(sub, level));
        i = i + 1;
    }
    assert(items@.subrange(0, items@.len() as int) =~= items@);
}

/// The text form of a JSON value, one string per line, starting at the
/// outermost level.
pub fn json_text_lines(v: &JsonValue) -> (lines: Vec<String>)
    ensures
        line_texts(lines@) == value_lines(*v, 0),
{
    let mut lines: Vec<String> = Vec::new();
    let prefix = String::new();
    assert(prefix@ =~= indent_text(0));
    push_value_lines(v, &prefix, Ghost(0), &mut lines);
    assert(line_texts(lines@) =~= value_lines(*v, 0));
    lines
}

/// The JSON kind of a setting's text, before a number with a fraction or an
/// exponent is tried: `true` or `false`, an integer that fits in an `i64`,
/// or something else.
pub enum TextKind {
    Bool(bool),
    Int(i64),
    Other,
}

/// The JSON kind of a setting's text.
pub open spec fn text_kind(s: Seq<char>) -> TextKind {
    if s == "true"@ {
        TextKind::Bool(true)
    } else if s == "false"@ {
        TextKind::Bool(false)
    } else {
        match parse_i64_spec(s) {
            Some(n) => TextKind::Int(n),
            None => TextKind::Other,
        }
    }
}

/// The JSON kind of a setting's text.
pub fn text_kind_of(s: &str) -> (k: TextKind)
    ensures
        k == text_kind(s@),
{
    if str_eq(s, "true") {
        TextKind::Bool(true)
    } else if str_eq(s, "false") {
        TextKind::Bool(false)
    } else {
        match parse_i64(s) {
            Some(n) => TextKind::Int(n),
            None => TextKind::Other,
        }
    }
}

} // verus!
