use vstd::prelude::*;
use vstd::string::{StringExecFns, StringSliceAdditionalSpecFns};

use crate::error::{non_null_addr, trap_error_spec, trap_into_result, Error, ErrorModel, Trap};
use crate::func::Func;

verus! {

/// An instantiated module, wrapping `wasm_instance_t`.
#[derive(Debug)]
pub struct Instance {
    addr: usize,
}

impl View for Instance {
    type V = usize;

    /// The address of the runtime object.
    closed spec fn view(&self) -> usize {
        self.addr
    }
}

/// Whether `names[i]` is the first of `names` equal to `name`.
pub open spec fn is_first_match(names: Seq<Seq<u8>>, name: Seq<u8>, i: int) -> bool {
    &&& 0 <= i < names.len()
    &&& names[i] == name
    &&& forall|j: int| 0 <= j < i ==> names[j] != name
}

/// The message of the error for a name that nothing is exported under.
pub open spec fn export_not_found_message(name: Seq<char>) -> Seq<char> {
    "export '"@ + name + "' not found"@
}

/// Whether two byte strings are equal.
pub fn bytes_eq(a: &[u8], b: &[u8]) -> (r: bool)
    ensures
        r == (a@ == b@),
{
    if a.len() != b.len() {
        return false;
    }
    let mut i: usize = 0;
    while i < a.len()
        invariant
            a@.len() == b@.len(),
            i <= a@.len(),
            forall|j: int| 0 <= j < i ==> a@[j] == b@[j],
        decreases a@.len() - i,
    {
        if a[i] != b[i] {
            return false;
        }
        i = i + 1;
    }
    assert(a@ =~= b@);
    true
}

impl Instance {
    #[verifier::type_invariant]
    spec fn non_null(self) -> bool {
        self.addr != 0
    }

    /// The address of the runtime object; never null.
    pub fn handle(&self) -> (r: usize)
        ensures
            r == self@,
            r != 0,
    {
        proof {
            use_type_invariant(self);
        }
        self.addr
    }

    /// Wraps the instance that `wasm_instance_new` created at `raw`, given the
    /// trap that the start function raised, if any.
    ///
    /// A trap is reported as [`Error::Trap`], whatever `raw` is; otherwise a null
    /// `raw` fails.
    pub fn new(trap: Option<Trap>, raw: usize) -> (r: Result<Instance, Error>)
        ensures
            match trap {
                Some(t) => r matches Err(e) && e@ == trap_error_spec(t),
                None => match r {
                    Ok(v) => raw != 0 && v@ == raw,
                    Err(e) => raw == 0 && e@ == ErrorModel::Message("failed to create instance"@),
                },
            },
    {
        trap_into_result(trap)?;
        let addr = non_null_addr(raw, "failed to create instance")?;
        Ok(Instance { addr })
    }

    /// Looks a function up by its index among the module's defined functions,
    /// given what `zwasm_instance_get_func` returned for that index.
    ///
    /// Fails when `raw` is null. That lookup indexes the full function index
    /// space but bounds checks against the defined functions alone, so it is only
    /// reliable on a module that imports no function.
    pub fn get_func(&self, raw: usize) -> (r: Result<Func, Error>)
        ensures
            match r {
                Ok(v) => raw != 0 && v@ == raw,
                Err(e) => raw == 0 && e@ == ErrorModel::Message("function not found"@),
            },
    {
        Func::from_index_lookup(raw)
    }

    /// Finds the position of the export named `name`.
    ///
    /// `export_names` are the names of the export section of the module this
    /// instance was created from, in order; the instance's exports come without
    /// names and are matched to them by position. The first export so named
    /// wins. The function itself is then taken from the instance's exports at
    /// that position and wrapped with [`Func::from_export`], which fails when the
    /// export is not a function.
    ///
    /// Fails when nothing is exported under `name`.
    pub fn get_func_by_name(&self, export_names: &Vec<Vec<u8>>, name: &str) -> (r: Result<
        usize,
        Error,
    >)
        ensures
            match r {
                Ok(i) => is_first_match(
                    export_names@.map_values(|v: Vec<u8>| v@),
                    name.spec_bytes(),
                    i as int,
                ),
                Err(e) => (forall|j: int|
                    0 <= j < export_names@.len() ==> export_names@[j]@ != name.spec_bytes())
                    && e@ == ErrorModel::Message(export_not_found_message(name@)),
            },
    {
        let wanted = name.as_bytes();
        let ghost names = export_names@.map_values(|v: Vec<u8>| v@);
        let mut i: usize = 0;
        while i < export_names.len()
            invariant
                i <= export_names@.len(),
                names == export_names@.map_values(|v: Vec<u8>| v@),
                wanted@ == name.spec_bytes(),
                forall|j: int| 0 <= j < i ==> export_names@[j]@ != name.spec_bytes(),
            decreases export_names@.len() - i,
        {
            if bytes_eq(export_names[i].as_slice(), wanted) {
                assert forall|j: int| 0 <= j < i implies names[j] != name.spec_bytes() by {
                    assert(names[j] == export_names@[j]@);
                }
                return Ok(i);
            }
            i = i + 1;
        }
        let mut msg = "export '".to_owned();
        msg.append(name);
        msg.append("' not found");
        Err(Error::Message(msg))
    }
}

} // verus!
