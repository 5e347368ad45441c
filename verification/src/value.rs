//! The dynamically typed value that the interpreter hands to the shell, and
//! its mathematical model.

use vstd::prelude::*;

verus! {

/// Mathematical model of a script value: text is a sequence of characters,
/// an integer is unbounded, an array is a sequence of values and an object a
/// sequence of named values in the order in which the names were inserted.
pub ghost enum ValueModel {
    Text(Seq<char>),
    Boolean(bool),
    Integer(int),
    Float(Seq<char>),
    Null,
    Undefined,
    Array(Seq<ValueModel>),
    Object(Seq<(Seq<char>, ValueModel)>),
    Function(Seq<char>),
    Module(Seq<char>),
    Other,
}

/// A value produced by evaluating script text.
///
/// The formatter only reads a value; it never changes one. A value is a
/// finite tree: a container owns its children.
#[derive(Debug, PartialEq, Eq)]
pub enum DynamicValue {
    /// A string, with its raw content.
    String(String),
    /// `true` or `false`.
    Boolean(bool),
    /// A number that the interpreter holds as a 32-bit integer.
    Integer(i32),
    /// Any other number, carried as the decimal text that the host's default
    /// number-to-text conversion gives for it.
    Float(String),
    /// The `null` value.
    Null,
    /// The `undefined` value.
    Undefined,
    /// The elements of an array, in order.
    Array(Vec<DynamicValue>),
    /// The entries of an object, each a key and its value, in the order in
    /// which the keys were inserted.
    Object(Vec<(String, DynamicValue)>),
    /// A callable, with its display name.
    Function(String),
    /// A compiled unit, with its declared name.
    Module(String),
    /// A value of any kind that has no textual form of its own.
    Other,
}

/// The models of a sequence of values, in order.
pub open spec fn models(values: Seq<DynamicValue>) -> Seq<ValueModel>
    decreases values,
{
    Seq::new(
        values.len(),
        |i: int|
            if 0 <= i < values.len() {
                values[i]@
            } else {
                ValueModel::Other
            },
    )
}

/// The models of the entries of an object, in order.
pub open spec fn entry_models(entries: Seq<(String, DynamicValue)>) -> Seq<(Seq<char>, ValueModel)>
    decreases entries,
{
    Seq::new(
        entries.len(),
        |i: int|
            if 0 <= i < entries.len() {
                let key: Seq<char> = entries[i].0@;
                let value: ValueModel = entries[i].1@;
                (key, value)
            } else {
                (Seq::empty(), ValueModel::Other)
            },
    )
}

impl View for DynamicValue {
    type V = ValueModel;

    open spec fn view(&self) -> ValueModel
        decreases self,
    {
        match self {
            DynamicValue::String(s) => ValueModel::Text(s@),
            DynamicValue::Boolean(b) => ValueModel::Boolean(*b),
            DynamicValue::Integer(n) => ValueModel::Integer(*n as int),
            DynamicValue::Float(t) => ValueModel::Float(t@),
            DynamicValue::Null => ValueModel::Null,
            DynamicValue::Undefined => ValueModel::Undefined,
            DynamicValue::Array(items) => ValueModel::Array(models(items@)),
            DynamicValue::Object(entries) => ValueModel::Object(entry_models(entries@)),
            DynamicValue::Function(name) => ValueModel::Function(name@),
            DynamicValue::Module(name) => ValueModel::Module(name@),
            DynamicValue::Other => ValueModel::Other,
        }
    }
}

} // verus!
