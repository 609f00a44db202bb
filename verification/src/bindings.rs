//! The scripting bindings: this build carries none.

use vstd::prelude::*;

verus! {

/// Whether the Python bindings are part of this build.
pub const PYTHON_BINDINGS_ENABLED: bool = false;

/// Why the bindings are not available in this build.
pub fn bindings_disabled_reason() -> (reason: &'static str)
    ensures
        reason@
            == "fontlift-python built without `python-bindings`; enable the feature (used by maturin) to compile the PyO3 extension."@,
{
    "fontlift-python built without `python-bindings`; enable the feature (used by maturin) to compile the PyO3 extension."
}

} // verus!
