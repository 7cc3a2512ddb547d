//! How a demo run ends when it does not reach the end of its plan.

use vstd::prelude::*;

verus! {

/// Why a run stopped short.
pub enum Failure {
    /// A read returned a value other than the one written.
    Mismatch { expected: String, actual: String },
    /// A remote call failed.
    Api { message: String },
    /// A reply lacked data the demo needs to go on.
    Missing { what: String },
}

} // verus!
