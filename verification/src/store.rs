use vstd::prelude::*;

use crate::error::{non_null_addr, Error, ErrorModel};

verus! {

/// Runtime state for one thread, wrapping `wasm_store_t`.
///
/// A store owns everything instantiated through it. It is deliberately neither
/// `Send` nor `Sync`, because the C side is single threaded per store.
#[derive(Debug)]
pub struct Store {
    addr: usize,
}

impl View for Store {
    type V = usize;

    /// The address of the runtime object.
    closed spec fn view(&self) -> usize {
        self.addr
    }
}

impl Store {
    #[verifier::type_invariant]
    spec fn non_null(self) -> bool {
        self.addr != 0
    }

    /// The address of the runtime object; never null.
    pub fn handle(&self) -> (r: usize)
        ensures
            r == self@,
            r != 0,
    {
        proof {
            use_type_invariant(self);
        }
        self.addr
    }

    /// Wraps the store that `wasm_store_new` returned at `raw` for an engine, which
    /// has to outlive it.
    ///
    /// Fails when `raw` is null.
    pub fn new(raw: usize) -> (r: Result<Store, Error>)
        ensures
            match r {
                Ok(v) => raw != 0 && v@ == raw,
                Err(e) => raw == 0 && e@ == ErrorModel::Message("failed to create store"@),
            },
    {
        let addr = non_null_addr(raw, "failed to create store")?;
        Ok(Store { addr })
    }
}

} // verus!
