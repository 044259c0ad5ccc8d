//! Components carried by gameplay events.

use vstd::prelude::*;

verus! {

/// An entity's body posture, as the protocol's entity metadata names them.
#[derive(Copy, Clone, Debug, PartialEq, Eq, Hash, Structural)]
pub enum Posture {
    Standing,
    FallFlying,
    Sleeping,
    Swimming,
    SpinAttack,
    Sneaking,
    LongJumping,
    Dying,
    Croaking,
    UsingTongue,
    Sitting,
    Roaring,
    Sniffing,
    Emerging,
    Digging,
}

/// The numeric id a posture has on the wire.
pub open spec fn posture_id(p: Posture) -> i32 {
    match p {
        Posture::Standing => 0,
        Posture::FallFlying => 1,
        Posture::Sleeping => 2,
        Posture::Swimming => 3,
        Posture::SpinAttack => 4,
        Posture::Sneaking => 5,
        Posture::LongJumping => 6,
        Posture::Dying => 7,
        Posture::Croaking => 8,
        Posture::UsingTongue => 9,
        Posture::Sitting => 10,
        Posture::Roaring => 11,
        Posture::Sniffing => 12,
        Posture::Emerging => 13,
        Posture::Digging => 14,
    }
}

impl Posture {
    /// The numeric id this posture has on the wire.
    pub fn id(&self) -> (r: i32)
        ensures
            r == posture_id(*self),
    {
        match self {
            Posture::Standing => 0,
            Posture::FallFlying => 1,
            Posture::Sleeping => 2,
            Posture::Swimming => 3,
            Posture::SpinAttack => 4,
            Posture::Sneaking => 5,
            Posture::LongJumping => 6,
            Posture::Dying => 7,
            Posture::Croaking => 8,
            Posture::UsingTongue => 9,
            Posture::Sitting => 10,
            Posture::Roaring => 11,
            Posture::Sniffing => 12,
            Posture::Emerging => 13,
            Posture::Digging => 14,
        }
    }
}

/// An entity changed posture; consumers turn this into a metadata update.
#[derive(Copy, Clone, Debug, PartialEq, Eq, Structural)]
pub struct PostureUpdate {
    /// The new posture of the entity.
    pub state: Posture,
}

} // verus!
