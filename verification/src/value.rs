//! The values of the two heaps.
//!
//! A value of either heap is held as a tree of plain data: `HostValue` for the
//! host language, `JsValue` for JavaScript. Each has a mathematical model,
//! its view, over which the bridge is specified.

use crate::number::Double;
use vstd::prelude::*;

verus! {

/// The key of an entry of a host keyed sequence.
#[derive(Clone, Debug, PartialEq, Eq)]
pub enum ArrayKey {
    /// A numeric, positional key.
    Index(i64),
    /// A string key.
    Name(String),
}

/// The model of an `ArrayKey`.
pub enum KeyModel {
    Index(int),
    Name(Seq<char>),
}

impl View for ArrayKey {
    type V = KeyModel;

    open spec fn view(&self) -> KeyModel {
        match self {
            ArrayKey::Index(i) => KeyModel::Index(*i as int),
            ArrayKey::Name(s) => KeyModel::Name(s@),
        }
    }
}

/// A value of the host language.
#[derive(Debug, PartialEq, Eq)]
pub enum HostValue {
    Null,
    Bool(bool),
    Long(i64),
    Double(Double),
    String(String),
    /// A keyed sequence: the entries in their order.
    Array(Vec<(ArrayKey, HostValue)>),
    /// An object: the name of its class and its properties in their order.
    Object(String, Vec<(String, HostValue)>),
    /// Any other value; the bridge does not look into it.
    Opaque,
}

/// The model of a `HostValue`.
pub enum HostModel {
    Null,
    Bool(bool),
    Long(int),
    Double(u64),
    String(Seq<char>),
    Array(Seq<(KeyModel, HostModel)>),
    Object(Seq<char>, Seq<(Seq<char>, HostModel)>),
    Opaque,
}

/// The model of a host value.
pub open spec fn host_model(v: HostValue) -> HostModel
    decreases v,
{
    match v {
        HostValue::Null => HostModel::Null,
        HostValue::Bool(b) => HostModel::Bool(b),
        HostValue::Long(n) => HostModel::Long(n as int),
        HostValue::Double(d) => HostModel::Double(d.bits),
        HostValue::String(s) => HostModel::String(s@),
        HostValue::Array(entries) => HostModel::Array(
            Seq::new(
                entries.len() as nat,
                |i: int|
                    if 0 <= i < entries.len() {
                        (entries[i].0@, host_model(entries[i].1))
                    } else {
                        (KeyModel::Index(0), HostModel::Null)
                    },
            ),
        ),
        HostValue::Object(class, properties) => HostModel::Object(
            class@,
            Seq::new(
                properties.len() as nat,
                |i: int|
                    if 0 <= i < properties.len() {
                        (properties[i].0@, host_model(properties[i].1))
                    } else {
                        (Seq::empty(), HostModel::Null)
                    },
            ),
        ),
        HostValue::Opaque => HostModel::Opaque,
    }
}

impl View for HostValue {
    type V = HostModel;

    open spec fn view(&self) -> HostModel {
        host_model(*self)
    }
}

/// A JavaScript value.
#[derive(Debug, PartialEq, Eq)]
pub enum JsValue {
    Undefined,
    Null,
    Boolean(bool),
    Number(Double),
    String(String),
    /// An array: its elements in their order.
    Array(Vec<JsValue>),
    /// A function. Functions do not cross the bridge by identity.
    Function,
    /// An object that is neither an array nor a function: its own enumerable
    /// properties in their order.
    Object(Vec<(String, JsValue)>),
    /// Any other value (a symbol, a big integer), held by its text.
    Other(String),
}

/// The model of a `JsValue`.
pub enum JsModel {
    Undefined,
    Null,
    Boolean(bool),
    Number(u64),
    String(Seq<char>),
    Array(Seq<JsModel>),
    Function,
    Object(Seq<(Seq<char>, JsModel)>),
    Other(Seq<char>),
}

/// The model of a JavaScript value.
pub open spec fn js_model(v: JsValue) -> JsModel
    decreases v,
{
    match v {
        JsValue::Undefined => JsModel::Undefined,
        JsValue::Null => JsModel::Null,
        JsValue::Boolean(b) => JsModel::Boolean(b),
        JsValue::Number(d) => JsModel::Number(d.bits),
        JsValue::String(s) => JsModel::String(s@),
        JsValue::Array(items) => JsModel::Array(
            Seq::new(
                items.len() as nat,
                |i: int|
                    if 0 <= i < items.len() {
                        js_model(items[i])
                    } else {
                        JsModel::Undefined
                    },
            ),
        ),
        JsValue::Function => JsModel::Function,
        JsValue::Object(properties) => JsModel::Object(
            Seq::new(
                properties.len() as nat,
                |i: int|
                    if 0 <= i < properties.len() {
                        (properties[i].0@, js_model(properties[i].1))
                    } else {
                        (Seq::empty(), JsModel::Undefined)
                    },
            ),
        ),
        JsValue::Other(s) => JsModel::Other(s@),
    }
}

impl View for JsValue {
    type V = JsModel;

    open spec fn view(&self) -> JsModel {
        js_model(*self)
    }
}

} // verus!
