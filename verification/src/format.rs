//! The value formatter: one canonical line of text for every value.

use crate::text::{
    contents, decimal, format_integer, join_strings, joined, joined_prefix, lemma_joined_push,
};
use crate::value::{entry_models, models, DynamicValue, ValueModel};
use vstd::prelude::*;
use vstd::string::*;

verus! {

/// The canonical text of a value.
///
/// Text is wrapped in double quotes with its content untouched. An array is
/// the texts of its elements between square brackets; an object is its
/// entries, each as `key: value`, between padded braces. Children keep their
/// order and are separated by a comma and a space. A value with no textual
/// form of its own has one fixed text.
pub open spec fn render(m: ValueModel) -> Seq<char>
    decreases m,
{
    match m {
        ValueModel::Text(s) => "\""@ + s + "\""@,
        ValueModel::Boolean(b) => if b {
            "true"@
        } else {
            "false"@
        },
        ValueModel::Integer(n) => decimal(n),
        ValueModel::Float(t) => t,
        ValueModel::Null => "null"@,
        ValueModel::Undefined => "undefined"@,
        ValueModel::Array(items) => "["@ + joined(render_each(items), ", "@) + "]"@,
        ValueModel::Object(entries) => "{ "@ + joined(render_entries(entries), ", "@) + " }"@,
        ValueModel::Function(name) => "function "@ + name + "(...)"@,
        ValueModel::Module(name) => "module("@ + name + ")"@,
        ValueModel::Other => "Other Type"@,
    }
}

/// The canonical text of each value, in order.
pub open spec fn render_each(items: Seq<ValueModel>) -> Seq<Seq<char>>
    decreases items,
{
    Seq::new(
        items.len(),
        |i: int|
            if 0 <= i < items.len() {
                render(items[i])
            } else {
                Seq::empty()
            },
    )
}

/// The text of one entry of an object: the key, a colon and a space, and the
/// text of the value.
pub open spec fn entry_text(key: Seq<char>, value_text: Seq<char>) -> Seq<char> {
    key + ": "@ + value_text
}

/// The text of each entry of an object, in order.
pub open spec fn render_entries(entries: Seq<(Seq<char>, ValueModel)>) -> Seq<Seq<char>>
    decreases entries,
{
    Seq::new(
        entries.len(),
        |i: int|
            if 0 <= i < entries.len() {
                entry_text(entries[i].0, render(entries[i].1))
            } else {
                Seq::empty()
            },
    )
}

/// The canonical texts of several values with a single space between each
/// two neighbours.
pub open spec fn render_many(items: Seq<ValueModel>) -> Seq<char> {
    joined(render_each(items), " "@)
}

/// A string is formatted as its content between two double quotes, whatever
/// the content is; nothing inside is escaped or changed.
pub proof fn lemma_string_is_quoted(s: String)
    ensures
        render(DynamicValue::String(s)@) == seq!['"'] + s@ + seq!['"'],
{
    reveal_strlit("\"");
    assert("\""@ =~= seq!['"']);
}

/// A boolean is formatted as the word `true` or the word `false`, the one
/// that it is.
pub proof fn lemma_boolean_is_its_word(b: bool)
    ensures
        b ==> render(DynamicValue::Boolean(b)@) == seq!['t', 'r', 'u', 'e'],
        !b ==> render(DynamicValue::Boolean(b)@) == seq!['f', 'a', 'l', 's', 'e'],
{
    reveal_strlit("true");
    reveal_strlit("false");
    assert("true"@ =~= seq!['t', 'r', 'u', 'e']);
    assert("false"@ =~= seq!['f', 'a', 'l', 's', 'e']);
}

/// An array without elements is formatted as the two brackets alone.
pub proof fn lemma_empty_array_is_brackets(items: Vec<DynamicValue>)
    requires
        items@.len() == 0,
    ensures
        render(DynamicValue::Array(items)@) == seq!['[', ']'],
{
    reveal_strlit("[");
    reveal_strlit("]");
    assert(render(DynamicValue::Array(items)@) =~= seq!['[', ']']);
}

/// The entries of an object are formatted in the order in which they were
/// inserted: with two entries, the first key and its value come first, then
/// a comma and a space, then the second key and its value, all between
/// padded braces.
pub proof fn lemma_object_keeps_insertion_order(entries: Vec<(String, DynamicValue)>)
    requires
        entries@.len() == 2,
    ensures
        render(DynamicValue::Object(entries)@) == seq!['{', ' '] + entries@[0].0@ + seq![':', ' ']
            + render(entries@[0].1@) + seq![',', ' '] + entries@[1].0@ + seq![':', ' '] + render(
            entries@[1].1@,
        ) + seq![' ', '}'],
{
    reveal_strlit("{ ");
    reveal_strlit(" }");
    reveal_strlit(": ");
    reveal_strlit(", ");
    reveal_with_fuel(joined_prefix, 3);
    let texts = render_entries(entry_models(entries@));
    assert(texts[0] == entry_text(entries@[0].0@, render(entries@[0].1@)));
    assert(texts[1] == entry_text(entries@[1].0@, render(entries@[1].1@)));
    assert(joined(texts, ", "@) =~= texts[0] + ", "@ + texts[1]);
    assert(render(DynamicValue::Object(entries)@) =~= seq!['{', ' '] + entries@[0].0@ + seq![
        ':',
        ' ',
    ] + render(entries@[0].1@) + seq![',', ' '] + entries@[1].0@ + seq![':', ' '] + render(
        entries@[1].1@,
    ) + seq![' ', '}']);
}

/// A value that has no textual form of its own is always formatted as the
/// same fixed text.
pub proof fn lemma_opaque_value_is_fixed_text(v: DynamicValue)
    requires
        v is Other,
    ensures
        render(v@) == seq!['O', 't', 'h', 'e', 'r', ' ', 'T', 'y', 'p', 'e'],
{
    reveal_strlit("Other Type");
    assert("Other Type"@ =~= seq!['O', 't', 'h', 'e', 'r', ' ', 'T', 'y', 'p', 'e']);
}

/// Several values are formatted one by one and joined by single spaces: the
/// text of a non-empty sequence followed by one more value is the text of
/// the sequence, a space, and the text of that value.
pub proof fn lemma_many_appends_after_a_space(items: Seq<ValueModel>, last: ValueModel)
    ensures
        items.len() == 0 ==> render_many(items.push(last)) == render(last),
        items.len() > 0 ==> render_many(items.push(last)) == render_many(items) + seq![' ']
            + render(last),
{
    reveal_strlit(" ");
    assert(" "@ =~= seq![' ']);
    assert(render_each(items.push(last)) =~= render_each(items).push(render(last)));
    lemma_joined_push(render_each(items), " "@, render(last));
}

/// Formats one value.
pub fn format_js_value(v: &DynamicValue) -> (out: String)
    ensures
        out@ == render(v@),
    decreases v,
{
    match v {
        DynamicValue::String(s) => {
            let mut out = String::from_str("\"");
            out.append(s.as_str());
            out.append("\"");
            assert(out@ =~= render(v@));
            out
        },
        DynamicValue::Boolean(b) => {
            if *b {
                String::from_str("true")
            } else {
                String::from_str("false")
            }
        },
        DynamicValue::Integer(n) => format_integer(*n),
        DynamicValue::Float(t) => t.clone(),
        DynamicValue::Null => String::from_str("null"),
        DynamicValue::Undefined => String::from_str("undefined"),
        DynamicValue::Array(items) => {
            let parts = format_each(items);
            let body = join_strings(&parts, ", ");
            let mut out = String::from_str("[");
            out.append(body.as_str());
            out.append("]");
            proof {
                assert(contents(parts@) =~= render_each(models(items@)));
                assert(out@ =~= render(v@));
            }
            out
        },
        DynamicValue::Object(entries) => {
            let parts = format_entries(entries);
            let body = join_strings(&parts, ", ");
            let mut out = String::from_str("{ ");
            out.append(body.as_str());
            out.append(" }");
            proof {
                assert(contents(parts@) =~= render_entries(entry_models(entries@)));
                assert(out@ =~= render(v@));
            }
            out
        },
        DynamicValue::Function(name) => {
            let mut out = String::from_str("function ");
            out.append(name.as_str());
            out.append("(...)");
            assert(out@ =~= render(v@));
            out
        },
        DynamicValue::Module(name) => {
            let mut out = String::from_str("module(");
            out.append(name.as_str());
            out.append(")");
            assert(out@ =~= render(v@));
            out
        },
        DynamicValue::Other => String::from_str("Other Type"),
    }
}

/// Formats each value, keeping the order.
fn format_each(items: &Vec<DynamicValue>) -> (parts: Vec<String>)
    ensures
        parts@.len() == items@.len(),
        forall|i: int| 0 <= i < items@.len() ==> (#[trigger] parts@[i])@ == render(items@[i]@),
    decreases items,
{
    let mut parts: Vec<String> = Vec::new();
    let mut i: usize = 0;
    while i < items.len()
        invariant
            i <= items.len(),
            parts@.len() == i,
            forall|k: int| 0 <= k < i ==> (#[trigger] parts@[k])@ == render(items@[k]@),
        decreases items.len() - i,
    {
        let part = format_js_value(&items[i]);
        parts.push(part);
        i += 1;
    }
    parts
}

/// Formats each entry of an object as `key: value`, keeping the order.
fn format_entries(entries: &Vec<(String, DynamicValue)>) -> (parts: Vec<String>)
    ensures
        parts@.len() == entries@.len(),
        forall|i: int|
            0 <= i < entries@.len() ==> (#[trigger] parts@[i])@ == entry_text(
                entries@[i].0@,
                render(entries@[i].1@),
            ),
    decreases entries,
{
    let mut parts: Vec<String> = Vec::new();
    let mut i: usize = 0;
    while i < entries.len()
        invariant
            i <= entries.len(),
            parts@.len() == i,
            forall|k: int|
                0 <= k < i ==> (#[trigger] parts@[k])@ == entry_text(
                    entries@[k].0@,
                    render(entries@[k].1@),
                ),
        decreases entries.len() - i,
    {
        let mut part = entries[i].0.clone();
        part.append(": ");
        let text = format_js_value(&entries[i].1);
        part.append(text.as_str());
        assert(part@ =~= entry_text(entries@[i as int].0@, render(entries@[i as int].1@)));
        parts.push(part);
        i += 1;
    }
    parts
}

/// Formats several values and joins them with a single space.
pub fn format_many(values: &Vec<DynamicValue>) -> (out: String)
    ensures
        out@ == render_many(models(values@)),
{
    let parts = format_each(values);
    proof {
        assert(contents(parts@) =~= render_each(models(values@)));
    }
    join_strings(&parts, " ")
}

} // verus!
