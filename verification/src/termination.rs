//! What a test body may return.

use vstd::prelude::*;
use wasm_bindgen::{JsError, JsValue};

verus! {

/// Similar to `std::process::Termination`, but for the bodies of tests: what
/// they return is turned into success or a thrown value.
pub trait Termination {
    /// Convert this into a JS result.
    fn into_js_result(self) -> Result<(), JsValue>;
}

/// `JsError::new` of `wasm_bindgen`, then the conversion of the error into a
/// `JsValue`: a JavaScript `Error` object whose message is the debug text of
/// `error`. Nothing is claimed of the handle that comes back. The object is
/// made by the JavaScript host, so the call needs one.
#[verifier::external_body]
fn thrown<E: core::fmt::Debug>(error: &E) -> JsValue {
    JsError::new(&format!("{:?}", error)).into()
}

impl Termination for () {
    fn into_js_result(self) -> (result: Result<(), JsValue>)
        ensures
            result is Ok,
    {
        Ok(())
    }
}

impl<E: core::fmt::Debug> Termination for Result<(), E> {
    fn into_js_result(self) -> (result: Result<(), JsValue>)
        ensures
            result is Ok <==> self is Ok,
    {
        match self {
            Ok(_) => Ok(()),
            Err(error) => Err(thrown(&error)),
        }
    }
}

} // verus!
