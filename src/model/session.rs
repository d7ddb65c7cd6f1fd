use vstd::prelude::*;

verus! {

#[derive(Debug, Clone, Copy, PartialEq, Eq, Structural)]
pub enum DrinkCharacter {
    YoungWoman,
    YoungMan,
}

#[derive(Debug, Clone, Copy, PartialEq, Eq, Structural)]
pub enum SipSize {
    BigSip,
    HalfCup,
    FullCup,
}

#[derive(Debug, Clone, Copy, PartialEq, Eq, Structural)]
pub enum GenderType {
    Male,
    Female,
    Other,
}

/// The stable name of an exercise.
#[derive(Debug, Clone, PartialEq, Eq)]
pub struct SessionId(pub String);

/// An exercise shown during a break.
#[derive(Debug, Clone, PartialEq, Eq)]
pub struct Exercise {
    pub id: SessionId,
    pub title: String,
    pub description: String,
    pub advices: Vec<String>,
    pub duration_s: u32,
    pub active: bool,
}

} // verus!
