use vstd::prelude::*;

use crate::construction::{build, build_result, release_after, Release};
use crate::error::{Error, ErrorModel};
use crate::val::KIND_FUNCREF;

verus! {

/// A table of references, wrapping `wasm_table_t`.
///
/// Element access is not wrapped, because it works in terms of `wasm_ref_t`,
/// which has no safe representation here yet.
#[derive(Debug)]
pub struct Table {
    addr: usize,
}

impl View for Table {
    type V = usize;

    /// The address of the runtime object.
    closed spec fn view(&self) -> usize {
        self.addr
    }
}

impl Table {
    #[verifier::type_invariant]
    spec fn non_null(self) -> bool {
        self.addr != 0
    }

    /// The address of the runtime object; never null.
    pub fn handle(&self) -> (r: usize)
        ensures
            r == self@,
            r != 0,
    {
        proof {
            use_type_invariant(self);
        }
        self.addr
    }

    /// The element kind of every table created here: `funcref`.
    pub fn element_kind() -> (r: u8)
        ensures
            r == KIND_FUNCREF,
    {
        KIND_FUNCREF
    }

    /// Decides the creation of a table from what each step returned: the value
    /// type (`wasm_valtype_new` of [`Table::element_kind`]), the table type
    /// (`wasm_tabletype_new`, which takes the value type over) and the table
    /// (`wasm_table_new`, every slot null). A step after a null one is not taken
    /// and its argument is ignored.
    ///
    /// Also returns what is left to delete: the value type when the table type
    /// could not be made, and the table type once it was made.
    pub fn new(value_type: usize, table_type: usize, table: usize) -> (r: (
        Result<Table, Error>,
        Release,
    ))
        ensures
            r.1 == release_after(value_type, table_type),
            match (r.0, build_result(
                value_type,
                table_type,
                table,
                "failed to create value type"@,
                "failed to create table type"@,
                "failed to create table"@,
            )) {
                (Ok(t), Ok(a)) => t@ == a,
                (Err(e), Err(m)) => e@ == m,
                _ => false,
            },
    {
        let (res, rel) = build(
            value_type,
            table_type,
            table,
            "failed to create value type",
            "failed to create table type",
            "failed to create table",
        );
        match res {
            Ok(addr) => (Ok(Table { addr }), rel),
            Err(e) => (Err(e), rel),
        }
    }

    /// The outcome of growing the table by some null slots, given whether
    /// `wasm_table_grow` succeeded; it fails past the table's maximum.
    pub fn grow(&mut self, grown: bool) -> (r: Result<(), Error>)
        ensures
            *final(self) == *old(self),
            grown ==> r is Ok,
            !grown ==> (r matches Err(e) && e@ == ErrorModel::Message("failed to grow table"@)),
    {
        if grown {
            Ok(())
        } else {
            Err(Error::Message("failed to grow table".to_owned()))
        }
    }
}

} // verus!
