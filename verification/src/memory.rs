use vstd::prelude::*;

use crate::construction::Release;
use crate::error::{Error, ErrorModel};

verus! {

/// What creating a memory leaves to delete: the memory type once it was made.
pub open spec fn memory_release(memory_type: usize) -> Release {
    Release { value_type: 0, object_type: memory_type }
}

/// A linear memory, wrapping `wasm_memory_t`.
///
/// Sizes are in 64 KiB pages.
#[derive(Debug)]
pub struct Memory {
    addr: usize,
}

impl View for Memory {
    type V = usize;

    /// The address of the runtime object.
    closed spec fn view(&self) -> usize {
        self.addr
    }
}

impl Memory {
    #[verifier::type_invariant]
    spec fn non_null(self) -> bool {
        self.addr != 0
    }

    /// The address of the runtime object; never null.
    pub fn handle(&self) -> (r: usize)
        ensures
            r == self@,
            r != 0,
    {
        proof {
            use_type_invariant(self);
        }
        self.addr
    }

    /// Decides the creation of a memory from what each step returned: the memory
    /// type (`wasm_memorytype_new` of the limits) and the memory
    /// (`wasm_memory_new`). When the memory type is null the memory is not
    /// created and `memory` is ignored.
    ///
    /// Also returns what is left to delete: the memory type once it was made.
    pub fn new(memory_type: usize, memory: usize) -> (r: (Result<Memory, Error>, Release))
        ensures
            r.1 == memory_release(memory_type),
            r.1.value_type == 0 && r.1.object_type == memory_type,
            memory_type == 0 ==> (r.0 matches Err(e) && e@ == ErrorModel::Message(
                "failed to create memory type"@,
            )),
            memory_type != 0 && memory == 0 ==> (r.0 matches Err(e) && e@ == ErrorModel::Message(
                "failed to create memory"@,
            )),
            memory_type != 0 && memory != 0 ==> (r.0 matches Ok(m) && m@ == memory),
    {
        let rel = Release { value_type: 0, object_type: memory_type };
        if memory_type == 0 {
            (Err(Error::Message("failed to create memory type".to_owned())), rel)
        } else if memory == 0 {
            (Err(Error::Message("failed to create memory".to_owned())), rel)
        } else {
            (Ok(Memory { addr: memory }), rel)
        }
    }

    /// The outcome of growing the memory by some pages, given whether
    /// `wasm_memory_grow` succeeded; it fails past the memory's maximum.
    ///
    /// Growing can move the backing buffer, so it takes `&mut self`.
    pub fn grow(&mut self, grown: bool) -> (r: Result<(), Error>)
        ensures
            *final(self) == *old(self),
            grown ==> r is Ok,
            !grown ==> (r matches Err(e) && e@ == ErrorModel::Message("failed to grow memory"@)),
    {
        if grown {
            Ok(())
        } else {
            Err(Error::Message("failed to grow memory".to_owned()))
        }
    }
}

} // verus!
