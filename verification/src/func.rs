use vstd::prelude::*;

use crate::error::{non_null_addr, trap_error_spec, trap_into_result, Error, ErrorModel, Trap};
use crate::val::Val;

verus! {

/// A callable function, wrapping `wasm_func_t`.
///
/// Obtained from an instance's exports, or created from a host callback.
#[derive(Debug)]
pub struct Func {
    addr: usize,
}

impl View for Func {
    type V = usize;

    /// The address of the runtime object.
    closed spec fn view(&self) -> usize {
        self.addr
    }
}

impl Func {
    #[verifier::type_invariant]
    spec fn non_null(self) -> bool {
        self.addr != 0
    }

    /// The address of the runtime object; never null.
    pub fn handle(&self) -> (r: usize)
        ensures
            r == self@,
            r != 0,
    {
        proof {
            use_type_invariant(self);
        }
        self.addr
    }

    /// Wraps the host function that `wasm_func_new` created at `raw`.
    ///
    /// Fails when `raw` is null.
    pub fn new_host(raw: usize) -> (r: Result<Func, Error>)
        ensures
            match r {
                Ok(v) => raw != 0 && v@ == raw,
                Err(e) => raw == 0 && e@ == ErrorModel::Message("failed to create host function"@),
            },
    {
        let addr = non_null_addr(raw, "failed to create host function")?;
        Ok(Func { addr })
    }

    /// Wraps the function copied out of an instance export, at `raw`.
    ///
    /// The copy is null when the export is not a function, which is the error
    /// this reports.
    pub fn from_export(raw: usize) -> (r: Result<Func, Error>)
        ensures
            match r {
                Ok(v) => raw != 0 && v@ == raw,
                Err(e) => raw == 0 && e@ == ErrorModel::Message("export is not a function"@),
            },
    {
        let addr = non_null_addr(raw, "export is not a function")?;
        Ok(Func { addr })
    }

    /// Wraps the function that `zwasm_instance_get_func` found at `raw`.
    ///
    /// Fails when `raw` is null, that is when no function has that index.
    pub fn from_index_lookup(raw: usize) -> (r: Result<Func, Error>)
        ensures
            match r {
                Ok(v) => raw != 0 && v@ == raw,
                Err(e) => raw == 0 && e@ == ErrorModel::Message("function not found"@),
            },
    {
        let addr = non_null_addr(raw, "function not found")?;
        Ok(Func { addr })
    }

    /// The outcome of a call of this function: the trap it raised, if any, as
    /// an [`Error::Trap`]; else the values it wrote into the result vector,
    /// which was sized from the function's own result arity.
    pub fn finish_call(&self, trap: Option<Trap>, results: Vec<Val>) -> (r: Result<Vec<Val>, Error>)
        ensures
            match trap {
                Some(t) => r matches Err(e) && e@ == trap_error_spec(t),
                None => r matches Ok(v) && v@ == results@,
            },
    {
        trap_into_result(trap)?;
        Ok(results)
    }
}

} // verus!
