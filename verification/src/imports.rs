use vstd::prelude::*;

use crate::error::{error_from_last, last_error_spec, ZwasmError};
use crate::wasi::{c_string, c_string_bytes, c_string_is_well_formed, has_nul, is_c_string};

verus! {

/// What the registry records of a host function, as a specification value.
pub struct ImportFnModel {
    pub module_name: Seq<u8>,
    pub func_name: Seq<u8>,
    pub param_count: u32,
    pub result_count: u32,
}

/// A registered host function: the C strings of its module and function
/// names (with their NUL terminators), and its parameter and result counts
/// (all values are 64 bits wide).
#[derive(Debug, Clone)]
pub struct ImportFn {
    pub module_name: Vec<u8>,
    pub func_name: Vec<u8>,
    pub param_count: u32,
    pub result_count: u32,
}

impl View for ImportFn {
    type V = ImportFnModel;

    open spec fn view(&self) -> ImportFnModel {
        ImportFnModel {
            module_name: self.module_name@,
            func_name: self.func_name@,
            param_count: self.param_count,
            result_count: self.result_count,
        }
    }
}

/// Host function import registry, wrapping `zwasm_imports_t`.
///
/// Records the host functions registered so far, in order; the callbacks
/// themselves are kept beside it by the code that calls into the runtime.
#[derive(Debug)]
pub struct Imports {
    addr: usize,
    fns: Vec<ImportFn>,
}

impl Imports {
    /// The address of the runtime object.
    pub closed spec fn addr(self) -> usize {
        self.addr
    }

    /// The host functions registered so far, in order.
    pub closed spec fn entries(self) -> Seq<ImportFnModel> {
        self.fns@.map_values(|f: ImportFn| f@)
    }

    /// Every registered name is a well formed C string, so that the runtime can
    /// be handed it as it is.
    pub open spec fn names_are_c_strings(self) -> bool {
        forall|i: int|
            0 <= i < self.entries().len() ==> is_c_string(#[trigger] self.entries()[i].module_name)
                && is_c_string(self.entries()[i].func_name)
    }

    /// The address of the runtime object.
    pub fn handle(&self) -> (r: usize)
        ensures
            r == self.addr(),
    {
        self.addr
    }

    /// Wraps the registry that `zwasm_import_new` returned at `raw`, with no host
    /// function registered.
    ///
    /// Fails when `raw` is null, with the runtime's last error message, or
    /// "Unknown error" when it has none.
    pub fn new(raw: usize, last_error: Option<String>) -> (r: Result<Imports, ZwasmError>)
        ensures
            match r {
                Ok(v) => raw != 0 && v.addr() == raw && v.entries() == Seq::<ImportFnModel>::empty()
                    && v.names_are_c_strings(),
                Err(e) => raw == 0 && e.0@ == last_error_spec(last_error),
            },
    {
        if raw == 0 {
            Err(error_from_last(last_error))
        } else {
            let fns: Vec<ImportFn> = Vec::new();
            let r = Imports { addr: raw, fns };
            assert(r.entries() =~= Seq::<ImportFnModel>::empty());
            Ok(r)
        }
    }

    /// The number of host functions registered.
    pub fn len(&self) -> (n: usize)
        ensures
            n == self.entries().len(),
    {
        self.fns.len()
    }

    /// The host function registered at `index`.
    pub fn entry(&self, index: usize) -> (f: &ImportFn)
        requires
            index < self.entries().len(),
        ensures
            f@ == self.entries()[index as int],
    {
        &self.fns[index]
    }

    /// Registers a host function under `module_name` and `func_name`, taking
    /// `param_count` arguments and giving `result_count` results (all 64-bit
    /// values), and returns its position in the registry. The runtime is then
    /// told of it with `zwasm_import_add_fn`.
    ///
    /// Fails, registering nothing, when a name holds a NUL byte; the module name
    /// is checked first.
    pub fn add_fn(
        &mut self,
        module_name: &str,
        func_name: &str,
        param_count: u32,
        result_count: u32,
    ) -> (r: Result<usize, ZwasmError>)
        ensures
            final(self).addr() == old(self).addr(),
            old(self).names_are_c_strings() ==> final(self).names_are_c_strings(),
            has_nul(module_name) ==> (r matches Err(e) && e.0@ == "module name contains NUL byte"@
                && final(self).entries() == old(self).entries()),
            !has_nul(module_name) && has_nul(func_name) ==> (r matches Err(e) && e.0@
                == "function name contains NUL byte"@ && final(self).entries() == old(
                self,
            ).entries()),
            !has_nul(module_name) && !has_nul(func_name) ==> (r matches Ok(i) && i == old(
                self,
            ).entries().len() && final(self).entries() == old(self).entries().push(
                ImportFnModel {
                    module_name: c_string_bytes(module_name),
                    func_name: c_string_bytes(func_name),
                    param_count,
                    result_count,
                },
            )),
    {
        let c_module_name = match c_string(module_name) {
            Some(c) => c,
            None => {
                return Err(ZwasmError("module name contains NUL byte".to_owned()));
            },
        };
        let c_func_name = match c_string(func_name) {
            Some(c) => c,
            None => {
                return Err(ZwasmError("function name contains NUL byte".to_owned()));
            },
        };
        proof {
            c_string_is_well_formed(module_name);
            c_string_is_well_formed(func_name);
        }
        let index = self.fns.len();
        self.fns.push(
            ImportFn { module_name: c_module_name, func_name: c_func_name, param_count, result_count },
        );
        proof {
            assert(self.fns@.map_values(|f: ImportFn| f@) =~= old(self).fns@.map_values(
                |f: ImportFn| f@,
            ).push(self.fns@[index as int]@));
            if old(self).names_are_c_strings() {
                assert forall|i: int| 0 <= i < self.entries().len() implies is_c_string(
                    #[trigger] self.entries()[i].module_name,
                ) && is_c_string(self.entries()[i].func_name) by {
                    if i < index {
                        assert(self.entries()[i] == old(self).entries()[i]);
                    }
                }
            }
        }
        Ok(index)
    }
}

} // verus!
