use vstd::prelude::*;

verus! {

/// Read-only compiler state handed to `compile` and to static typing.
/// The surrounding front end records externally declared facts here; no
/// construct of this core consults it, so it carries nothing.
pub struct Compiler {}

impl Compiler {
    pub fn new() -> Compiler {
        Compiler {  }
    }
}

} // verus!
