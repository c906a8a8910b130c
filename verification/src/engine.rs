use vstd::prelude::*;

use crate::error::{non_null_addr, Error, ErrorModel};

verus! {

/// A compilation environment, wrapping `wasm_engine_t`.
#[derive(Debug)]
pub struct Engine {
    addr: usize,
}

impl View for Engine {
    type V = usize;

    /// The address of the runtime object.
    closed spec fn view(&self) -> usize {
        self.addr
    }
}

impl Engine {
    #[verifier::type_invariant]
    spec fn non_null(self) -> bool {
        self.addr != 0
    }

    /// The address of the runtime object; never null.
    pub fn handle(&self) -> (r: usize)
        ensures
            r == self@,
            r != 0,
    {
        proof {
            use_type_invariant(self);
        }
        self.addr
    }

    /// Wraps the engine that `wasm_engine_new` returned at `raw`.
    ///
    /// Fails when `raw` is null.
    pub fn new(raw: usize) -> (r: Result<Engine, Error>)
        ensures
            match r {
                Ok(v) => raw != 0 && v@ == raw,
                Err(e) => raw == 0 && e@ == ErrorModel::Message("failed to create engine"@),
            },
    {
        let addr = non_null_addr(raw, "failed to create engine")?;
        Ok(Engine { addr })
    }
}

} // verus!
