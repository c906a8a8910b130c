use vstd::prelude::*;

verus! {

/// The value kind code of a 32-bit integer in the C API.
pub const KIND_I32: u8 = 0;
/// The value kind code of a 64-bit integer.
pub const KIND_I64: u8 = 1;
/// The value kind code of a 32-bit float.
pub const KIND_F32: u8 = 2;
/// The value kind code of a 64-bit float.
pub const KIND_F64: u8 = 3;
/// The value kind code of an external reference.
pub const KIND_EXTERNREF: u8 = 128;
/// The value kind code of a function reference.
pub const KIND_FUNCREF: u8 = 129;

/// A WebAssembly value.
///
/// Floats are carried as their IEEE 754 bit patterns, and references as the
/// address of the runtime's reference object (`0` for a null reference).
#[derive(Debug, Clone, Copy, PartialEq, Eq, Structural)]
pub enum Val {
    I32(i32),
    I64(i64),
    F32(u32),
    F64(u64),
    ExternRef(usize),
    FuncRef(usize),
}

/// The kind code of a value, as the C API numbers them.
pub open spec fn kind_of(v: Val) -> u8 {
    match v {
        Val::I32(_) => KIND_I32,
        Val::I64(_) => KIND_I64,
        Val::F32(_) => KIND_F32,
        Val::F64(_) => KIND_F64,
        Val::ExternRef(_) => KIND_EXTERNREF,
        Val::FuncRef(_) => KIND_FUNCREF,
    }
}

impl Val {
    /// The value's kind code, as the C API numbers them.
    pub fn kind(&self) -> (k: u8)
        ensures
            k == kind_of(*self),
            *self is I32 ==> k == KIND_I32,
            *self is I64 ==> k == KIND_I64,
            *self is F32 ==> k == KIND_F32,
            *self is F64 ==> k == KIND_F64,
            *self is ExternRef ==> k == KIND_EXTERNREF,
            *self is FuncRef ==> k == KIND_FUNCREF,
    {
        match self {
            Val::I32(_) => KIND_I32,
            Val::I64(_) => KIND_I64,
            Val::F32(_) => KIND_F32,
            Val::F64(_) => KIND_F64,
            Val::ExternRef(_) => KIND_EXTERNREF,
            Val::FuncRef(_) => KIND_FUNCREF,
        }
    }
}

/// The kind code of a value depends on its variant alone, never on its
/// payload, and is the C API's code for that variant: every 32-bit integer is an
/// `i32`, every float bit pattern of either width is tagged with its own width,
/// every reference with its own reference kind.
pub proof fn law_kind_depends_on_variant_only(
    a: i32,
    b: i64,
    c: u32,
    d: u64,
    e: usize,
    f: usize,
    c2: u32,
    d2: u64,
)
    ensures
        kind_of(Val::I32(a)) == 0,
        kind_of(Val::I64(b)) == 1,
        kind_of(Val::F32(c)) == 2,
        kind_of(Val::F64(d)) == 3,
        kind_of(Val::ExternRef(e)) == 128,
        kind_of(Val::FuncRef(f)) == 129,
        kind_of(Val::F32(c)) == kind_of(Val::F32(c2)),
        kind_of(Val::F64(d)) == kind_of(Val::F64(d2)),
        kind_of(Val::F32(c)) != kind_of(Val::F64(d)),
        kind_of(Val::I32(a)) != kind_of(Val::I64(b)),
        kind_of(Val::ExternRef(e)) != kind_of(Val::FuncRef(f)),
{
}

} // verus!
