use vstd::prelude::*;

verus! {

/// A plain value holder used to show the standard smart pointers.
#[derive(Debug, Clone, Copy, PartialEq, Eq, Structural)]
pub struct SimpleStruct {
    pub value: i32,
}

impl SimpleStruct {
    pub fn new(value: i32) -> (r: Self)
        ensures
            r.value == value,
    {
        SimpleStruct { value }
    }
}

} // verus!
