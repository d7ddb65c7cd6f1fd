use vstd::prelude::*;
use crate::model::session::{DrinkCharacter, SipSize};

verus! {

/// Sent to the break view when a session starts.
#[derive(Debug, Clone, Copy, PartialEq, Eq, Structural)]
pub struct SessionStartEvent {
    pub selected_drink_character: DrinkCharacter,
    pub sip_size: SipSize,
}

} // verus!
