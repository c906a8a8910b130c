use vstd::prelude::*;

use crate::error::{non_null_addr, Error, ErrorModel};

verus! {

/// A compiled and validated module, wrapping `wasm_module_t`.
///
/// A module holds no runtime state, so one module can back several instances.
#[derive(Debug)]
pub struct Module {
    addr: usize,
}

impl View for Module {
    type V = usize;

    /// The address of the runtime object.
    closed spec fn view(&self) -> usize {
        self.addr
    }
}

impl Module {
    #[verifier::type_invariant]
    spec fn non_null(self) -> bool {
        self.addr != 0
    }

    /// The address of the runtime object; never null.
    pub fn handle(&self) -> (r: usize)
        ensures
            r == self@,
            r != 0,
    {
        proof {
            use_type_invariant(self);
        }
        self.addr
    }

    /// Wraps the module that `wasm_module_new` decoded and validated at `raw`.
    ///
    /// Fails when `raw` is null, which is how the C API reports an invalid
    /// module; it gives no reason, so the message is generic.
    pub fn new(raw: usize) -> (r: Result<Module, Error>)
        ensures
            match r {
                Ok(v) => raw != 0 && v@ == raw,
                Err(e) => raw == 0 && e@ == ErrorModel::Message("failed to create module"@),
            },
    {
        let addr = non_null_addr(raw, "failed to create module")?;
        Ok(Module { addr })
    }
}

} // verus!
