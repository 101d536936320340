//! The kinds of instance drawn on the radar.
use vstd::prelude::*;

verus! {

/// What an instance on the radar stands for; the shader tells them apart by
/// number.
#[derive(Debug, Clone, Copy, PartialEq, Eq, Structural)]
pub enum InstanceType {
    MapTexture,
    LocalPlayer,
    TPlayer,
    CTPlayer,
}

/// The number the shader sees for each kind.
pub open spec fn spec_instance_code(t: InstanceType) -> i32 {
    match t {
        InstanceType::MapTexture => 0,
        InstanceType::LocalPlayer => 1,
        InstanceType::TPlayer => 2,
        InstanceType::CTPlayer => 3,
    }
}

/// The kind a number stands for; unknown numbers give the map texture.
pub open spec fn spec_instance_from_code(v: i32) -> InstanceType {
    if v == 1 {
        InstanceType::LocalPlayer
    } else if v == 2 {
        InstanceType::TPlayer
    } else if v == 3 {
        InstanceType::CTPlayer
    } else {
        InstanceType::MapTexture
    }
}

impl InstanceType {
    /// The number the shader sees for this kind.
    pub fn code(&self) -> (res: i32)
        ensures
            res == spec_instance_code(*self),
    {
        match self {
            InstanceType::MapTexture => 0,
            InstanceType::LocalPlayer => 1,
            InstanceType::TPlayer => 2,
            InstanceType::CTPlayer => 3,
        }
    }
}

impl From<i32> for InstanceType {
    fn from(v: i32) -> (res: InstanceType) {
        if v == 1 {
            InstanceType::LocalPlayer
        } else if v == 2 {
            InstanceType::TPlayer
        } else if v == 3 {
            InstanceType::CTPlayer
        } else {
            InstanceType::MapTexture
        }
    }
}

impl vstd::std_specs::convert::FromSpecImpl<i32> for InstanceType {
    open spec fn obeys_from_spec() -> bool {
        true
    }

    open spec fn from_spec(v: i32) -> InstanceType {
        spec_instance_from_code(v)
    }
}

/// Every kind reads back from its own number.
pub proof fn lemma_instance_code_roundtrip(t: InstanceType)
    ensures
        spec_instance_from_code(spec_instance_code(t)) == t,
{
}

} // verus!
