use vstd::prelude::*;

use crate::error::{error_from_last, last_error_spec, ZwasmError};

verus! {

/// Runtime configuration for zwasm modules, wrapping `zwasm_config_t`.
///
/// Fuel, timeouts, memory limits, interpreter mode and cancellation are set on
/// the runtime object directly.
#[derive(Debug)]
pub struct Config {
    addr: usize,
}

impl View for Config {
    type V = usize;

    /// The address of the runtime object.
    closed spec fn view(&self) -> usize {
        self.addr
    }
}

impl Config {
    #[verifier::type_invariant]
    spec fn non_null(self) -> bool {
        self.addr != 0
    }

    /// The address of the runtime object; never null.
    pub fn handle(&self) -> (r: usize)
        ensures
            r == self@,
            r != 0,
    {
        proof {
            use_type_invariant(self);
        }
        self.addr
    }

    /// Wraps the configuration that `zwasm_config_new` returned at `raw`.
    ///
    /// Fails when `raw` is null, with the runtime's last error message, or
    /// "Unknown error" when it has none.
    pub fn new(raw: usize, last_error: Option<String>) -> (r: Result<Config, ZwasmError>)
        ensures
            match r {
                Ok(v) => raw != 0 && v@ == raw,
                Err(e) => raw == 0 && e.0@ == last_error_spec(last_error),
            },
    {
        if raw == 0 {
            Err(error_from_last(last_error))
        } else {
            Ok(Config { addr: raw })
        }
    }
}

} // verus!
