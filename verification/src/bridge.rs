//! The value bridge: every value that passes between the host and JavaScript
//! is converted here, recursively, in one direction or the other.
//!
//! Values are trees, so a value cannot contain itself; what is bounded is the
//! depth. A value that nests its arrays and objects more than `MAX_DEPTH`
//! deep is refused with `Error::InvalidValue`, in both directions, and so is
//! an array with more entries than the host can number.
//!
//! On its heap a value can contain itself, or the same value many times. Who
//! reads a value from a heap into a tree asks a `ReadBudget` before each
//! value that is read: it refuses what lies deeper than `MAX_DEPTH`, and what
//! comes after `MAX_NODES` values, so every reading ends.

use crate::error::{Error, ErrorModel};
use crate::number::{double_bits, int32_value, lemma_int32_round_trip, Double};
use crate::text::{decimal, decimal_string};
use crate::value::{ArrayKey, HostModel, HostValue, JsModel, JsValue, KeyModel};
use vstd::prelude::*;

verus! {

/// How deep arrays and objects may nest in a value that crosses the bridge.
pub const MAX_DEPTH: usize = 128;

/// How many values one reading of a value from a heap takes in.
pub const MAX_NODES: usize = 0x100_0000;

/// What is left to one reading of a value from a heap.
#[derive(Clone, Copy, Debug, PartialEq, Eq, Structural)]
pub struct ReadBudget {
    /// How many values may still be read.
    pub nodes_left: usize,
}

impl ReadBudget {
    /// Whether a value at the depth `depth` may be read: it lies no deeper
    /// than `MAX_DEPTH`, and the reading has not taken in `MAX_NODES` values
    /// yet. The value that is read first lies at the depth 0, and what a
    /// value holds lies one deeper than the value.
    pub open spec fn admits(self, depth: usize) -> bool {
        depth <= MAX_DEPTH && self.nodes_left > 0
    }

    /// The budget after one more value was read.
    pub open spec fn spent(self) -> ReadBudget {
        ReadBudget { nodes_left: (self.nodes_left - 1) as usize }
    }

    /// The budget of a reading that has not begun.
    pub fn new() -> (budget: ReadBudget)
        ensures
            budget.nodes_left == MAX_NODES,
    {
        ReadBudget { nodes_left: MAX_NODES }
    }

    /// Takes in one more value, at the depth `depth`. Where the budget admits
    /// it, the value counts as read; else the answer is `InvalidValue`, and
    /// the budget stays as it is.
    pub fn take(&mut self, depth: usize) -> (r: Result<(), Error>)
        ensures
            old(self).admits(depth) ==> r is Ok && *final(self) == old(self).spent(),
            !old(self).admits(depth) ==> r is Err && r->Err_0@ == ErrorModel::InvalidValue
                && *final(self) == *old(self),
    {
        if depth > MAX_DEPTH || self.nodes_left == 0 {
            Err(Error::InvalidValue)
        } else {
            self.nodes_left = self.nodes_left - 1;
            Ok(())
        }
    }
}

/// The budget of a reading that has taken in `taken` values.
pub open spec fn after(taken: nat) -> ReadBudget
    decreases taken,
{
    if taken == 0 {
        ReadBudget { nodes_left: MAX_NODES }
    } else {
        after((taken - 1) as nat).spent()
    }
}

/// Every reading ends: its budget admits a value exactly where the value
/// lies no deeper than `MAX_DEPTH` and fewer than `MAX_NODES` values were
/// taken in before it.
pub proof fn lemma_reading_ends(taken: nat, depth: usize)
    requires
        taken <= MAX_NODES,
    ensures
        after(taken).nodes_left == MAX_NODES - taken,
        after(taken).admits(depth) <==> depth <= MAX_DEPTH && taken < MAX_NODES,
    decreases taken,
{
    if taken > 0 {
        lemma_reading_ends((taken - 1) as nat, depth);
    }
}

/// The class of the host objects that stand for JavaScript objects.
pub open spec fn object_class() -> Seq<char> {
    "V8Object"@
}

/// The host string that stands for a JavaScript function.
pub open spec fn function_text() -> Seq<char> {
    "Function"@
}

/// What the engine answers when it is asked what a value is. More than one
/// answer can be yes: an array and a function are objects too.
#[derive(Clone, Copy, Debug, PartialEq, Eq, Structural)]
pub struct JsTraits {
    pub is_string: bool,
    pub is_null_or_undefined: bool,
    pub is_boolean: bool,
    pub is_number: bool,
    pub is_array: bool,
    pub is_function: bool,
    pub is_object: bool,
}

/// What a JavaScript value is taken for.
#[derive(Clone, Copy, Debug, PartialEq, Eq, Structural)]
pub enum JsKind {
    String,
    Null,
    Boolean,
    Number,
    Array,
    Function,
    Object,
    Other,
}

/// What a value with these answers is taken for: the first that applies of
/// string, null or undefined, boolean, number, array, function, object; and
/// where none applies, something else, which crosses the bridge as its text.
pub open spec fn kind_of(traits: JsTraits) -> JsKind {
    if traits.is_string {
        JsKind::String
    } else if traits.is_null_or_undefined {
        JsKind::Null
    } else if traits.is_boolean {
        JsKind::Boolean
    } else if traits.is_number {
        JsKind::Number
    } else if traits.is_array {
        JsKind::Array
    } else if traits.is_function {
        JsKind::Function
    } else if traits.is_object {
        JsKind::Object
    } else {
        JsKind::Other
    }
}

/// What a value with these answers is taken for.
pub fn classify(traits: &JsTraits) -> (kind: JsKind)
    ensures
        kind == kind_of(*traits),
{
    if traits.is_string {
        JsKind::String
    } else if traits.is_null_or_undefined {
        JsKind::Null
    } else if traits.is_boolean {
        JsKind::Boolean
    } else if traits.is_number {
        JsKind::Number
    } else if traits.is_array {
        JsKind::Array
    } else if traits.is_function {
        JsKind::Function
    } else if traits.is_object {
        JsKind::Object
    } else {
        JsKind::Other
    }
}

/// Whether a JavaScript value nests at most `limit` deep and has no array
/// longer than the host can number.
pub open spec fn js_within(v: JsModel, limit: nat) -> bool
    decreases v,
{
    match v {
        JsModel::Array(items) => {
            &&& limit > 0
            &&& items.len() <= i64::MAX
            &&& forall|i: int|
                0 <= i < items.len() ==> js_within(#[trigger] items[i], (limit - 1) as nat)
        },
        JsModel::Object(properties) => {
            &&& limit > 0
            &&& forall|i: int|
                0 <= i < properties.len() ==> js_within(
                    (#[trigger] properties[i]).1,
                    (limit - 1) as nat,
                )
        },
        _ => true,
    }
}

/// Whether a host value nests its keyed sequences at most `limit` deep.
pub open spec fn host_within(v: HostModel, limit: nat) -> bool
    decreases v,
{
    match v {
        HostModel::Array(entries) => {
            &&& limit > 0
            &&& forall|i: int|
                0 <= i < entries.len() ==> host_within(
                    (#[trigger] entries[i]).1,
                    (limit - 1) as nat,
                )
        },
        _ => true,
    }
}

/// The host value that stands for a JavaScript value. In this order: a string
/// is a string; null and undefined are null; a boolean is a boolean; a number
/// that holds a 32-bit integer is an integer; any other number is a double; an
/// array is a keyed sequence numbered from 0; a function is the string
/// `Function`; an object is an object of the class `V8Object` with the same
/// properties; anything else is its text.
pub open spec fn host_of_js(v: JsModel) -> HostModel
    decreases v,
{
    match v {
        JsModel::String(s) => HostModel::String(s),
        JsModel::Null => HostModel::Null,
        JsModel::Undefined => HostModel::Null,
        JsModel::Boolean(b) => HostModel::Bool(b),
        JsModel::Number(bits) => match int32_value(bits) {
            Some(k) => HostModel::Long(k as int),
            None => HostModel::Double(bits),
        },
        JsModel::Array(items) => HostModel::Array(
            Seq::new(
                items.len(),
                |i: int|
                    if 0 <= i < items.len() {
                        (KeyModel::Index(i), host_of_js(items[i]))
                    } else {
                        (KeyModel::Index(i), HostModel::Null)
                    },
            ),
        ),
        JsModel::Function => HostModel::String(function_text()),
        JsModel::Object(properties) => HostModel::Object(
            object_class(),
            Seq::new(
                properties.len(),
                |i: int|
                    if 0 <= i < properties.len() {
                        (properties[i].0, host_of_js(properties[i].1))
                    } else {
                        (Seq::empty(), HostModel::Null)
                    },
            ),
        ),
        JsModel::Other(s) => HostModel::String(s),
    }
}

/// Whether some entry has a string key.
pub open spec fn has_name_key(entries: Seq<(KeyModel, HostModel)>) -> bool {
    exists|i: int| 0 <= i < entries.len() && (#[trigger] entries[i]).0 is Name
}

/// The name of the property that an entry with this key becomes: a string key
/// itself, a numeric key its decimal text.
pub open spec fn key_text(key: KeyModel) -> Seq<char> {
    match key {
        KeyModel::Index(i) => decimal(i),
        KeyModel::Name(s) => s,
    }
}

/// The JavaScript value that stands for a host value: a string is a string; an
/// integer is the nearest number and a double is itself; a boolean is a
/// boolean; null is null; a keyed sequence is an array of its values in their
/// order where every key is numeric, and an object with one property for each
/// entry where some key is a string; anything else is null.
pub open spec fn js_of_host(v: HostModel) -> JsModel
    decreases v,
{
    match v {
        HostModel::String(s) => JsModel::String(s),
        HostModel::Long(n) => JsModel::Number(double_bits(n)),
        HostModel::Double(bits) => JsModel::Number(bits),
        HostModel::Bool(b) => JsModel::Boolean(b),
        HostModel::Null => JsModel::Null,
        HostModel::Array(entries) => if has_name_key(entries) {
            JsModel::Object(
                Seq::new(
                    entries.len(),
                    |i: int|
                        if 0 <= i < entries.len() {
                            (key_text(entries[i].0), js_of_host(entries[i].1))
                        } else {
                            (Seq::empty(), JsModel::Null)
                        },
                ),
            )
        } else {
            JsModel::Array(
                Seq::new(
                    entries.len(),
                    |i: int|
                        if 0 <= i < entries.len() {
                            js_of_host(entries[i].1)
                        } else {
                            JsModel::Null
                        },
                ),
            )
        },
        HostModel::Object(_, _) => JsModel::Null,
        HostModel::Opaque => JsModel::Null,
    }
}

/// Converts a JavaScript value that may nest `limit` deep.
fn js_to_host(value: &JsValue, limit: usize) -> (r: Result<HostValue, Error>)
    ensures
        js_within(value@, limit as nat) ==> r is Ok && r->Ok_0@ == host_of_js(value@),
        !js_within(value@, limit as nat) ==> r is Err && r->Err_0@ == ErrorModel::InvalidValue,
    decreases value,
{
    match value {
        JsValue::String(s) => Ok(HostValue::String(s.clone())),
        JsValue::Null => Ok(HostValue::Null),
        JsValue::Undefined => Ok(HostValue::Null),
        JsValue::Boolean(b) => Ok(HostValue::Bool(*b)),
        JsValue::Number(d) => match d.as_int32() {
            Some(k) => Ok(HostValue::Long(k as i64)),
            None => Ok(HostValue::Double(*d)),
        },
        JsValue::Array(items) => {
            if limit == 0 || items.len() as u64 > i64::MAX as u64 {
                return Err(Error::InvalidValue);
            }
            let mut entries: Vec<(ArrayKey, HostValue)> = Vec::new();
            let mut i: usize = 0;
            while i < items.len()
                invariant
                    *value == JsValue::Array(*items),
                    i <= items.len() <= i64::MAX,
                    limit > 0,
                    entries.len() == i,
                    forall|j: int|
                        0 <= j < i ==> js_within(#[trigger] items[j]@, (limit - 1) as nat),
                    forall|j: int|
                        0 <= j < i ==> (#[trigger] entries[j]).0@ == KeyModel::Index(j)
                            && entries[j].1@ == host_of_js(items[j]@),
                decreases items.len() - i,
            {
                match js_to_host(&items[i], limit - 1) {
                    Ok(converted) => {
                        entries.push((ArrayKey::Index(i as i64), converted));
                    },
                    Err(e) => {
                        assert(!js_within(value@, limit as nat)) by {
                            assert(value@->Array_0[i as int] == items[i as int]@);
                        }
                        return Err(e);
                    },
                }
                i = i + 1;
            }
            let converted = HostValue::Array(entries);
            proof {
                let model = value@->Array_0;
                assert forall|j: int| 0 <= j < model.len() implies js_within(
                    #[trigger] model[j],
                    (limit - 1) as nat,
                ) by {
                    assert(model[j] == items[j]@);
                }
                assert(converted@->Array_0 =~= host_of_js(value@)->Array_0);
            }
            Ok(converted)
        },
        JsValue::Function => Ok(HostValue::String("Function".to_owned())),
        JsValue::Object(properties) => {
            if limit == 0 {
                return Err(Error::InvalidValue);
            }
            let mut converted: Vec<(String, HostValue)> = Vec::new();
            let mut i: usize = 0;
            while i < properties.len()
                invariant
                    *value == JsValue::Object(*properties),
                    i <= properties.len(),
                    limit > 0,
                    converted.len() == i,
                    forall|j: int|
                        0 <= j < i ==> js_within((#[trigger] properties[j]).1@, (limit - 1) as nat),
                    forall|j: int|
                        0 <= j < i ==> (#[trigger] converted[j]).0@ == properties[j].0@
                            && converted[j].1@ == host_of_js(properties[j].1@),
                decreases properties.len() - i,
            {
                match js_to_host(&properties[i].1, limit - 1) {
                    Ok(v) => {
                        converted.push((properties[i].0.clone(), v));
                    },
                    Err(e) => {
                        assert(!js_within(value@, limit as nat)) by {
                            assert(value@->Object_0[i as int].1 == properties[i as int].1@);
                        }
                        return Err(e);
                    },
                }
                i = i + 1;
            }
            let object = HostValue::Object("V8Object".to_owned(), converted);
            proof {
                let model = value@->Object_0;
                assert forall|j: int| 0 <= j < model.len() implies js_within(
                    (#[trigger] model[j]).1,
                    (limit - 1) as nat,
                ) by {
                    assert(model[j].1 == properties[j].1@);
                }
                assert(object@->Object_1 =~= host_of_js(value@)->Object_1);
            }
            Ok(object)
        },
        JsValue::Other(s) => Ok(HostValue::String(s.clone())),
    }
}

/// Whether some entry of `entries` has a string key.
fn any_name_key(entries: &Vec<(ArrayKey, HostValue)>) -> (found: bool)
    ensures
        found == has_name_key(HostValue::Array(*entries)@->Array_0),
{
    let mut i: usize = 0;
    while i < entries.len()
        invariant
            i <= entries.len(),
            forall|j: int| 0 <= j < i ==> (#[trigger] entries[j]).0 is Index,
        decreases entries.len() - i,
    {
        match &entries[i].0 {
            ArrayKey::Name(_) => {
                assert(HostValue::Array(*entries)@->Array_0[i as int].0 is Name);
                return true;
            },
            ArrayKey::Index(_) => {},
        }
        i = i + 1;
    }
    proof {
        let model = HostValue::Array(*entries)@->Array_0;
        assert forall|j: int| 0 <= j < model.len() implies !((#[trigger] model[j]).0 is Name) by {
            assert(entries[j].0 is Index);
        }
    }
    false
}

/// The name of the property that an entry with this key becomes.
fn key_name(key: &ArrayKey) -> (name: String)
    ensures
        name@ == key_text(key@),
{
    match key {
        ArrayKey::Index(i) => decimal_string(*i),
        ArrayKey::Name(s) => s.clone(),
    }
}

/// Converts a host value that may nest `limit` deep.
fn host_to_js(value: &HostValue, limit: usize) -> (r: Result<JsValue, Error>)
    ensures
        host_within(value@, limit as nat) ==> r is Ok && r->Ok_0@ == js_of_host(value@),
        !host_within(value@, limit as nat) ==> r is Err && r->Err_0@ == ErrorModel::InvalidValue,
    decreases value,
{
    match value {
        HostValue::String(s) => Ok(JsValue::String(s.clone())),
        HostValue::Long(n) => Ok(JsValue::Number(Double::from_i64(*n))),
        HostValue::Double(d) => Ok(JsValue::Number(*d)),
        HostValue::Bool(b) => Ok(JsValue::Boolean(*b)),
        HostValue::Null => Ok(JsValue::Null),
        HostValue::Array(entries) => {
            if limit == 0 {
                return Err(Error::InvalidValue);
            }
            let named = any_name_key(entries);
            let mut properties: Vec<(String, JsValue)> = Vec::new();
            let mut items: Vec<JsValue> = Vec::new();
            let mut i: usize = 0;
            while i < entries.len()
                invariant
                    *value == HostValue::Array(*entries),
                    i <= entries.len(),
                    limit > 0,
                    named ==> properties.len() == i,
                    !named ==> items.len() == i,
                    forall|j: int|
                        0 <= j < i ==> host_within((#[trigger] entries[j]).1@, (limit - 1) as nat),
                    named ==> forall|j: int|
                        0 <= j < i ==> (#[trigger] properties[j]).0@ == key_text(entries[j].0@)
                            && properties[j].1@ == js_of_host(entries[j].1@),
                    !named ==> forall|j: int|
                        0 <= j < i ==> (#[trigger] items[j])@ == js_of_host(entries[j].1@),
                decreases entries.len() - i,
            {
                match host_to_js(&entries[i].1, limit - 1) {
                    Ok(v) => {
                        if named {
                            properties.push((key_name(&entries[i].0), v));
                        } else {
                            items.push(v);
                        }
                    },
                    Err(e) => {
                        assert(!host_within(value@, limit as nat)) by {
                            assert(value@->Array_0[i as int].1 == entries[i as int].1@);
                        }
                        return Err(e);
                    },
                }
                i = i + 1;
            }
            proof {
                let model = value@->Array_0;
                assert forall|j: int| 0 <= j < model.len() implies host_within(
                    (#[trigger] model[j]).1,
                    (limit - 1) as nat,
                ) by {
                    assert(model[j].1 == entries[j].1@);
                }
            }
            if named {
                let object = JsValue::Object(properties);
                assert(object@->Object_0 =~= js_of_host(value@)->Object_0);
                Ok(object)
            } else {
                let array = JsValue::Array(items);
                assert(array@->Array_0 =~= js_of_host(value@)->Array_0);
                Ok(array)
            }
        },
        HostValue::Object(_, _) => Ok(JsValue::Null),
        HostValue::Opaque => Ok(JsValue::Null),
    }
}

/// The host value that stands for a JavaScript value, or `InvalidValue` where
/// the value nests more than `MAX_DEPTH` deep or has an array longer than the
/// host can number.
pub fn zval_from_jsvalue(value: &JsValue) -> (r: Result<HostValue, Error>)
    ensures
        js_within(value@, MAX_DEPTH as nat) ==> r is Ok && r->Ok_0@ == host_of_js(value@),
        !js_within(value@, MAX_DEPTH as nat) ==> r is Err && r->Err_0@
            == ErrorModel::InvalidValue,
{
    js_to_host(value, MAX_DEPTH)
}

/// The JavaScript value that stands for a host value, or `InvalidValue` where
/// the value nests its keyed sequences more than `MAX_DEPTH` deep.
pub fn js_value_from_zval(value: &HostValue) -> (r: Result<JsValue, Error>)
    ensures
        host_within(value@, MAX_DEPTH as nat) ==> r is Ok && r->Ok_0@ == js_of_host(value@),
        !host_within(value@, MAX_DEPTH as nat) ==> r is Err && r->Err_0@
            == ErrorModel::InvalidValue,
{
    host_to_js(value, MAX_DEPTH)
}

/// Whether a host value is a scalar: null, a boolean, an integer, a double or
/// a string.
pub open spec fn is_scalar(v: HostModel) -> bool {
    v is Null || v is Bool || v is Long || v is Double || v is String
}

/// The way to JavaScript and back keeps a scalar of the host, with two
/// exceptions that the kinds of number force: an integer outside the 32-bit
/// range comes back as a double, and a double that holds a 32-bit integer
/// comes back as that integer.
pub proof fn lemma_scalar_round_trip(v: HostModel)
    requires
        is_scalar(v),
    ensures
        host_of_js(js_of_host(v)) == v <==> {
            &&& v matches HostModel::Long(n) ==> i32::MIN <= n <= i32::MAX
            &&& v matches HostModel::Double(bits) ==> int32_value(bits) is None
        },
{
    match v {
        HostModel::Long(n) => {
            if i32::MIN <= n <= i32::MAX {
                lemma_int32_round_trip(n as i32);
            }
        },
        _ => {},
    }
}

/// A keyed sequence whose keys are all numeric becomes an array of the same
/// length, and that array comes back as a keyed sequence of the same length,
/// numbered from 0, that holds what came back of each value.
pub proof fn lemma_list_round_trip(entries: Seq<(KeyModel, HostModel)>)
    requires
        !has_name_key(entries),
    ensures
        js_of_host(HostModel::Array(entries)) matches JsModel::Array(items) && {
            &&& items.len() == entries.len()
            &&& forall|i: int|
                0 <= i < entries.len() ==> #[trigger] items[i] == js_of_host(entries[i].1)
        },
        host_of_js(js_of_host(HostModel::Array(entries))) matches HostModel::Array(back) && {
            &&& back.len() == entries.len()
            &&& forall|i: int|
                0 <= i < entries.len() ==> #[trigger] back[i] == (
                    KeyModel::Index(i),
                    host_of_js(js_of_host(entries[i].1)),
                )
        },
{
}

/// A keyed sequence with a string key becomes an object with one property for
/// each entry, named by the entry's key, and that object comes back as an
/// object of the class `V8Object` with the same names, in the same order,
/// that holds what came back of each value.
pub proof fn lemma_keyed_round_trip(entries: Seq<(KeyModel, HostModel)>)
    requires
        has_name_key(entries),
    ensures
        js_of_host(HostModel::Array(entries)) matches JsModel::Object(properties) && {
            &&& properties.len() == entries.len()
            &&& forall|i: int|
                0 <= i < entries.len() ==> #[trigger] properties[i] == (
                    key_text(entries[i].0),
                    js_of_host(entries[i].1),
                )
        },
        host_of_js(js_of_host(HostModel::Array(entries))) matches HostModel::Object(class, back)
            && {
            &&& class == object_class()
            &&& back.len() == entries.len()
            &&& forall|i: int|
                0 <= i < entries.len() ==> #[trigger] back[i] == (
                    key_text(entries[i].0),
                    host_of_js(js_of_host(entries[i].1)),
                )
        },
{
}

/// Whether no keyed sequence in a host value has more entries than the host
/// can number.
pub open spec fn host_countable(v: HostModel) -> bool
    decreases v,
{
    match v {
        HostModel::Array(entries) => {
            &&& entries.len() <= i64::MAX
            &&& forall|i: int| 0 <= i < entries.len() ==> host_countable((#[trigger] entries[i]).1)
        },
        _ => true,
    }
}

/// What the bridge hands to JavaScript, it takes back: a host value within the
/// depth limit becomes a JavaScript value within the same limit.
pub proof fn lemma_way_back_is_open(v: HostModel, limit: nat)
    requires
        host_within(v, limit),
        host_countable(v),
    ensures
        js_within(js_of_host(v), limit),
    decreases v,
{
    match v {
        HostModel::Array(entries) => {
            assert forall|i: int| 0 <= i < entries.len() implies js_within(
                js_of_host(entries[i].1),
                (limit - 1) as nat,
            ) by {
                assert(host_within((#[trigger] entries[i]).1, (limit - 1) as nat));
                assert(host_countable((#[trigger] entries[i]).1));
                lemma_way_back_is_open(entries[i].1, (limit - 1) as nat);
            }
            if has_name_key(entries) {
                let properties = js_of_host(v)->Object_0;
                assert forall|i: int| 0 <= i < properties.len() implies js_within(
                    (#[trigger] properties[i]).1,
                    (limit - 1) as nat,
                ) by {
                    assert(properties[i].1 == js_of_host(entries[i].1));
                }
            } else {
                let items = js_of_host(v)->Array_0;
                assert forall|i: int| 0 <= i < items.len() implies js_within(
                    #[trigger] items[i],
                    (limit - 1) as nat,
                ) by {
                    assert(items[i] == js_of_host(entries[i].1));
                }
            }
        },
        _ => {},
    }
}

} // verus!
