//! The op dispatcher: what happens when JavaScript calls an op.
//!
//! The dispatcher finds the callable by the op's name, converts the arguments
//! to host values in their order, invokes the callable, and converts what it
//! returned. Every failure becomes an error whose message JavaScript sees
//! in a thrown exception.

use crate::bridge::{
    host_of_js, host_within, js_of_host, js_value_from_zval, js_within, zval_from_jsvalue,
    MAX_DEPTH,
};
use crate::error::{Error, ErrorModel};
use crate::registry::CallableRegistry;
use crate::value::{HostModel, HostValue, JsModel, JsValue};
use vstd::prelude::*;

verus! {

/// The models of the values of a vector.
pub open spec fn js_models(values: Seq<JsValue>) -> Seq<JsModel> {
    values.map_values(|v: JsValue| v@)
}

/// The models of the values of a vector.
pub open spec fn host_models(values: Seq<HostValue>) -> Seq<HostModel> {
    values.map_values(|v: HostValue| v@)
}

/// Whether every argument can cross the bridge.
pub open spec fn arguments_within(args: Seq<JsModel>) -> bool {
    forall|i: int| 0 <= i < args.len() ==> js_within(#[trigger] args[i], MAX_DEPTH as nat)
}

/// What the dispatcher hands to JavaScript for what the callable returned or
/// raised: the converted value; `InvalidValue` where the value cannot cross the
/// bridge; `HostRaised` with the host's text where the callable raised.
pub open spec fn completion(outcome: Result<HostValue, String>) -> Result<JsModel, ErrorModel> {
    match outcome {
        Ok(value) => if host_within(value@, MAX_DEPTH as nat) {
            Ok(js_of_host(value@))
        } else {
            Err(ErrorModel::InvalidValue)
        },
        Err(text) => Err(ErrorModel::HostRaised(text@)),
    }
}

/// The model of a result of the dispatcher.
pub open spec fn result_model(r: Result<JsValue, Error>) -> Result<JsModel, ErrorModel> {
    match r {
        Ok(value) => Ok(value@),
        Err(e) => Err(e@),
    }
}

/// The arguments of a call as host values, in their order, or `InvalidValue`
/// where one of them cannot cross the bridge.
pub fn op_arguments(args: &Vec<JsValue>) -> (r: Result<Vec<HostValue>, Error>)
    ensures
        arguments_within(js_models(args@)) ==> r is Ok && host_models(r->Ok_0@) == js_models(
            args@,
        ).map_values(|a: JsModel| host_of_js(a)),
        !arguments_within(js_models(args@)) ==> r is Err && r->Err_0@ == ErrorModel::InvalidValue,
{
    let mut converted: Vec<HostValue> = Vec::new();
    let mut i: usize = 0;
    while i < args.len()
        invariant
            i <= args.len(),
            converted.len() == i,
            forall|j: int| 0 <= j < i ==> js_within(#[trigger] args[j]@, MAX_DEPTH as nat),
            forall|j: int| 0 <= j < i ==> (#[trigger] converted[j])@ == host_of_js(args[j]@),
        decreases args.len() - i,
    {
        match zval_from_jsvalue(&args[i]) {
            Ok(value) => {
                converted.push(value);
            },
            Err(e) => {
                assert(!arguments_within(js_models(args@))) by {
                    assert(js_models(args@)[i as int] == args[i as int]@);
                }
                return Err(e);
            },
        }
        i = i + 1;
    }
    proof {
        assert forall|j: int| 0 <= j < js_models(args@).len() implies js_within(
            #[trigger] js_models(args@)[j],
            MAX_DEPTH as nat,
        ) by {
            assert(js_models(args@)[j] == args[j]@);
        }
        assert(host_models(converted@) =~= js_models(args@).map_values(|a: JsModel| host_of_js(a)));
    }
    Ok(converted)
}

/// What the dispatcher hands to JavaScript for what the callable returned or
/// raised.
pub fn op_result(outcome: Result<HostValue, String>) -> (r: Result<JsValue, Error>)
    ensures
        result_model(r) == completion(outcome),
{
    match outcome {
        Ok(value) => js_value_from_zval(&value),
        Err(text) => Err(Error::HostRaised(text)),
    }
}

/// Serves the call of the op `name` with the arguments `args`. `invoke` calls
/// a callable of the registry with host values and says what it returned, or
/// the host's text where it raised.
///
/// Where the registry holds no op of that name, the result is `OpLookup` with
/// the name. Where an argument cannot cross the bridge, it is `InvalidValue`,
/// and nothing is invoked. Else the callable of that name is invoked once,
/// with the arguments converted in their order, and the result is the
/// `completion` of what the invocation gave.
pub fn op_callback<C, F>(
    registry: &CallableRegistry<C>,
    name: &str,
    args: &Vec<JsValue>,
    invoke: F,
) -> (r: Result<JsValue, Error>) where F: Fn(&C, Vec<HostValue>) -> Result<HostValue, String>
    requires
        forall|callable: &C, arguments: Vec<HostValue>|
            call_requires(invoke, (callable, arguments)),
    ensures
        !registry@.contains_key(name@) ==> result_model(r) == Err::<JsModel, ErrorModel>(
            ErrorModel::OpLookup(name@),
        ),
        registry@.contains_key(name@) && !arguments_within(js_models(args@)) ==> result_model(r)
            == Err::<JsModel, ErrorModel>(ErrorModel::InvalidValue),
        registry@.contains_key(name@) && arguments_within(js_models(args@)) ==> exists|
            arguments: Vec<HostValue>,
            outcome: Result<HostValue, String>,
        |
            {
                &&& host_models(arguments@) == js_models(args@).map_values(
                    |a: JsModel| host_of_js(a),
                )
                &&& call_ensures(invoke, (&registry@[name@], arguments), outcome)
                &&& result_model(r) == completion(outcome)
            },
{
    let callable = match registry.get(name) {
        Some(callable) => callable,
        None => {
            return Err(Error::OpLookup(name.to_owned()));
        },
    };
    let arguments = match op_arguments(args) {
        Ok(arguments) => arguments,
        Err(e) => {
            return Err(e);
        },
    };
    let ghost handed = arguments;
    let outcome = invoke(callable, arguments);
    let ghost given = outcome;
    let r = op_result(outcome);
    proof {
        assert(call_ensures(invoke, (&registry@[name@], handed), given));
    }
    r
}

} // verus!
