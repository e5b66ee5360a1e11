//! What counts as null at the boundary.

use crate::calls::DbKey;
use vstd::prelude::*;

verus! {

/// Whether or not a value passed across the boundary is null.
///
/// Numbers, flags and keys are never null. An address is null if and only if
/// it is zero, and a handle if its address is.
pub trait IsNull {
    /// Whether the value is null.
    spec fn null(&self) -> bool;

    fn is_null(&self) -> (null: bool)
        ensures
            null == self.null(),
    ;
}

impl IsNull for DbKey {
    open spec fn null(&self) -> bool {
        false
    }

    fn is_null(&self) -> (null: bool) {
        false
    }
}

impl IsNull for usize {
    open spec fn null(&self) -> bool {
        false
    }

    fn is_null(&self) -> (null: bool) {
        false
    }
}

impl IsNull for isize {
    open spec fn null(&self) -> bool {
        false
    }

    fn is_null(&self) -> (null: bool) {
        false
    }
}

impl IsNull for u8 {
    open spec fn null(&self) -> bool {
        false
    }

    fn is_null(&self) -> (null: bool) {
        false
    }
}

impl IsNull for u16 {
    open spec fn null(&self) -> bool {
        false
    }

    fn is_null(&self) -> (null: bool) {
        false
    }
}

impl IsNull for u32 {
    open spec fn null(&self) -> bool {
        false
    }

    fn is_null(&self) -> (null: bool) {
        false
    }
}

impl IsNull for u64 {
    open spec fn null(&self) -> bool {
        false
    }

    fn is_null(&self) -> (null: bool) {
        false
    }
}

impl IsNull for u128 {
    open spec fn null(&self) -> bool {
        false
    }

    fn is_null(&self) -> (null: bool) {
        false
    }
}

impl IsNull for i8 {
    open spec fn null(&self) -> bool {
        false
    }

    fn is_null(&self) -> (null: bool) {
        false
    }
}

impl IsNull for i16 {
    open spec fn null(&self) -> bool {
        false
    }

    fn is_null(&self) -> (null: bool) {
        false
    }
}

impl IsNull for i32 {
    open spec fn null(&self) -> bool {
        false
    }

    fn is_null(&self) -> (null: bool) {
        false
    }
}

impl IsNull for i64 {
    open spec fn null(&self) -> bool {
        false
    }

    fn is_null(&self) -> (null: bool) {
        false
    }
}

impl IsNull for i128 {
    open spec fn null(&self) -> bool {
        false
    }

    fn is_null(&self) -> (null: bool) {
        false
    }
}

impl IsNull for bool {
    open spec fn null(&self) -> bool {
        false
    }

    fn is_null(&self) -> (null: bool) {
        false
    }
}

} // verus!
