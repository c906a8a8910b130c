use vstd::prelude::*;

use crate::error::{Error, ErrorModel};

verus! {

/// The `max` of a limits value that means "no maximum".
pub const LIMITS_MAX_DEFAULT: u32 = 0xffff_ffff;

/// Size limits of a memory or table, as `wasm_limits_t` holds them.
#[derive(Debug, Clone, Copy, PartialEq, Eq, Structural)]
pub struct Limits {
    pub min: u32,
    pub max: u32,
}

/// The limits for `min` and an optional `max`; no maximum is
/// [`LIMITS_MAX_DEFAULT`].
pub fn limits(min: u32, max: Option<u32>) -> (r: Limits)
    ensures
        r.min == min,
        r.max == match max {
            Some(m) => m,
            None => LIMITS_MAX_DEFAULT,
        },
{
    Limits {
        min,
        max: match max {
            Some(m) => m,
            None => LIMITS_MAX_DEFAULT,
        },
    }
}

/// The intermediate type objects that a constructor still owns once it is
/// done, and has to delete: the value type (`wasm_valtype_t`) and the object's
/// own type (global, table or memory type). `0` means nothing to delete.
#[derive(Debug, Clone, Copy, PartialEq, Eq, Structural)]
pub struct Release {
    pub value_type: usize,
    pub object_type: usize,
}

/// What a three step construction leaves to delete: the value type when the
/// object type could not be made from it (the object type takes the value type
/// over once made), and the object type once it has been used.
pub open spec fn release_after(value_type: usize, object_type: usize) -> Release {
    if value_type == 0 {
        Release { value_type: 0, object_type: 0 }
    } else if object_type == 0 {
        Release { value_type: value_type, object_type: 0 }
    } else {
        Release { value_type: 0, object_type: object_type }
    }
}

/// The result of a three step construction: the first step that returned null
/// decides the error; steps after it are not taken and their arguments are
/// ignored.
pub open spec fn build_result(
    value_type: usize,
    object_type: usize,
    object: usize,
    value_type_msg: Seq<char>,
    object_type_msg: Seq<char>,
    object_msg: Seq<char>,
) -> Result<usize, ErrorModel> {
    if value_type == 0 {
        Err(ErrorModel::Message(value_type_msg))
    } else if object_type == 0 {
        Err(ErrorModel::Message(object_type_msg))
    } else if object == 0 {
        Err(ErrorModel::Message(object_msg))
    } else {
        Ok(object)
    }
}

/// Decides a three step construction (value type, object type, object).
pub fn build(
    value_type: usize,
    object_type: usize,
    object: usize,
    value_type_msg: &str,
    object_type_msg: &str,
    object_msg: &str,
) -> (r: (Result<usize, Error>, Release))
    ensures
        r.1 == release_after(value_type, object_type),
        match (r.0, build_result(
            value_type,
            object_type,
            object,
            value_type_msg@,
            object_type_msg@,
            object_msg@,
        )) {
            (Ok(a), Ok(b)) => a == b,
            (Err(e), Err(m)) => e@ == m,
            _ => false,
        },
{
    if value_type == 0 {
        (Err(Error::Message(value_type_msg.to_owned())), Release { value_type: 0, object_type: 0 })
    } else if object_type == 0 {
        (Err(Error::Message(object_type_msg.to_owned())), Release { value_type, object_type: 0 })
    } else if object == 0 {
        (Err(Error::Message(object_msg.to_owned())), Release { value_type: 0, object_type })
    } else {
        (Ok(object), Release { value_type: 0, object_type })
    }
}

/// Every construction releases each intermediate that it made and that no
/// later step took over, exactly once: the value type precisely when the object
/// type could not be made, the object type precisely when it was made, and
/// nothing that was never made.
pub proof fn construction_releases_what_it_owns(value_type: usize, object_type: usize)
    ensures
        ({
            let rel = release_after(value_type, object_type);
            &&& (rel.value_type != 0 <==> (value_type != 0 && object_type == 0))
            &&& (rel.value_type != 0 ==> rel.value_type == value_type)
            &&& (rel.object_type != 0 <==> (value_type != 0 && object_type != 0))
            &&& (rel.object_type != 0 ==> rel.object_type == object_type)
        }),
{
}

/// A construction succeeds exactly when every step returned a non-null
/// object, and then yields the last one.
pub proof fn construction_succeeds_iff_all_steps_do(
    value_type: usize,
    object_type: usize,
    object: usize,
    m1: Seq<char>,
    m2: Seq<char>,
    m3: Seq<char>,
)
    ensures
        build_result(value_type, object_type, object, m1, m2, m3) is Ok <==> (value_type != 0
            && object_type != 0 && object != 0),
        build_result(value_type, object_type, object, m1, m2, m3) matches Ok(o) ==> o == object,
        value_type == 0 ==> build_result(value_type, object_type, object, m1, m2, m3) == Err::<
            usize,
            ErrorModel,
        >(ErrorModel::Message(m1)),
        value_type != 0 && object_type == 0 ==> build_result(
            value_type,
            object_type,
            object,
            m1,
            m2,
            m3,
        ) == Err::<usize, ErrorModel>(ErrorModel::Message(m2)),
        value_type != 0 && object_type != 0 && object == 0 ==> build_result(
            value_type,
            object_type,
            object,
            m1,
            m2,
            m3,
        ) == Err::<usize, ErrorModel>(ErrorModel::Message(m3)),
{
}

} // verus!
