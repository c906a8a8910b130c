use vstd::prelude::*;

use crate::construction::{build, build_result, release_after, Release};
use crate::error::{Error, ErrorModel};

verus! {

/// The mutability code of an immutable global in the C API.
pub const MUTABILITY_CONST: u8 = 0;
/// The mutability code of a mutable global.
pub const MUTABILITY_VAR: u8 = 1;

/// A global variable, wrapping `wasm_global_t`.
#[derive(Debug)]
pub struct Global {
    addr: usize,
}

impl View for Global {
    type V = usize;

    /// The address of the runtime object.
    closed spec fn view(&self) -> usize {
        self.addr
    }
}

impl Global {
    #[verifier::type_invariant]
    spec fn non_null(self) -> bool {
        self.addr != 0
    }

    /// The address of the runtime object; never null.
    pub fn handle(&self) -> (r: usize)
        ensures
            r == self@,
            r != 0,
    {
        proof {
            use_type_invariant(self);
        }
        self.addr
    }

    /// The mutability code of a global created with `mutable`; only a mutable
    /// global takes writes.
    pub fn mutability(mutable: bool) -> (r: u8)
        ensures
            r == if mutable { MUTABILITY_VAR } else { MUTABILITY_CONST },
    {
        if mutable {
            MUTABILITY_VAR
        } else {
            MUTABILITY_CONST
        }
    }

    /// Decides the creation of a global from what each step returned: the value
    /// type (`wasm_valtype_new`, of the initial value's kind), the global type
    /// (`wasm_globaltype_new`, which takes the value type over) and the global
    /// (`wasm_global_new`). A step after a null one is not taken and its
    /// argument is ignored.
    ///
    /// Also returns what is left to delete: the value type when the global type
    /// could not be made, and the global type once it was made.
    pub fn new(value_type: usize, global_type: usize, global: usize) -> (r: (
        Result<Global, Error>,
        Release,
    ))
        ensures
            r.1 == release_after(value_type, global_type),
            match (r.0, build_result(
                value_type,
                global_type,
                global,
                "failed to create value type"@,
                "failed to create global type"@,
                "failed to create global"@,
            )) {
                (Ok(g), Ok(a)) => g@ == a,
                (Err(e), Err(m)) => e@ == m,
                _ => false,
            },
    {
        let (res, rel) = build(
            value_type,
            global_type,
            global,
            "failed to create value type",
            "failed to create global type",
            "failed to create global",
        );
        match res {
            Ok(addr) => (Ok(Global { addr }), rel),
            Err(e) => (Err(e), rel),
        }
    }
}

} // verus!
