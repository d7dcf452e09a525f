//! The binary state that a device reports and accepts.

use vstd::prelude::*;

verus! {

/// State of a switch as carried by the `BinaryState` field.
#[derive(Clone, Copy, Debug, PartialEq, Eq, Structural)]
pub enum WemoState {
    /// Wire code `0`.
    Off,
    /// Wire code `1`.
    On,
    /// Wire code `8`: an Insight switch that is on with nothing drawing power.
    OnWithoutLoad,
    /// Any other wire code.
    Unknown(u16),
}

/// The state that a wire code stands for; codes outside `0..=65535` stand for none.
pub open spec fn state_of_code(n: int) -> Option<WemoState> {
    if n < 0 || n > 65535 {
        None
    } else if n == 0 {
        Some(WemoState::Off)
    } else if n == 1 {
        Some(WemoState::On)
    } else if n == 8 {
        Some(WemoState::OnWithoutLoad)
    } else {
        Some(WemoState::Unknown(n as u16))
    }
}

impl WemoState {
    /// Whether the state counts as switched on.
    pub open spec fn spec_is_on(self) -> bool {
        self == WemoState::On || self == WemoState::OnWithoutLoad
    }

    /// The short human-readable text of the state.
    pub open spec fn description_text(self) -> Seq<char> {
        match self {
            WemoState::Off => "off"@,
            WemoState::On => "on"@,
            WemoState::OnWithoutLoad => "on without load"@,
            WemoState::Unknown(_) => "unknown state"@,
        }
    }

    /// The qualified variant name of the state.
    pub open spec fn variant_text(self) -> Seq<char> {
        match self {
            WemoState::Off => "WemoState::Off"@,
            WemoState::On => "WemoState::On"@,
            WemoState::OnWithoutLoad => "WemoState::OnWithoutLoad"@,
            WemoState::Unknown(_) => "WemoState::Unknown"@,
        }
    }

    /// The number written to the device for the state; `-1` for an unknown one.
    pub open spec fn wire_value(self) -> int {
        match self {
            WemoState::Off => 0,
            WemoState::On => 1,
            WemoState::OnWithoutLoad => 8,
            WemoState::Unknown(_) => -1,
        }
    }

    /// Whether the device is on.
    pub fn is_on(&self) -> (r: bool)
        ensures
            r == self.spec_is_on(),
            r <==> (*self == WemoState::On || *self == WemoState::OnWithoutLoad),
    {
        match *self {
            WemoState::On => true,
            WemoState::OnWithoutLoad => true,
            WemoState::Off => false,
            WemoState::Unknown(_) => false,
        }
    }

    /// A textual state useful for printing.
    pub fn description(&self) -> (r: &'static str)
        ensures
            r@ == self.description_text(),
    {
        match *self {
            WemoState::Off => "off",
            WemoState::On => "on",
            WemoState::OnWithoutLoad => "on without load",
            WemoState::Unknown(_) => "unknown state",
        }
    }

    /// The variant name, as the state is shown in logs.
    pub fn to_string(&self) -> (r: String)
        ensures
            r@ == self.variant_text(),
    {
        let name: &'static str = match *self {
            WemoState::Off => "WemoState::Off",
            WemoState::On => "WemoState::On",
            WemoState::OnWithoutLoad => "WemoState::OnWithoutLoad",
            WemoState::Unknown(_) => "WemoState::Unknown",
        };
        name.to_owned()
    }

    /// The state for a signed wire code: none for a negative code or one above 65535.
    pub fn from_i64(n: i64) -> (r: Option<WemoState>)
        ensures
            r == state_of_code(n as int),
            r is Some <==> 0 <= n <= 65535,
    {
        if n < 0 {
            None
        } else {
            WemoState::from_u64(n as u64)
        }
    }

    /// The state for an unsigned wire code: none for a code above 65535.
    pub fn from_u64(n: u64) -> (r: Option<WemoState>)
        ensures
            r == state_of_code(n as int),
            r is Some <==> n <= 65535,
    {
        if n > 65535 {
            None
        } else if n == 0 {
            Some(WemoState::Off)
        } else if n == 1 {
            Some(WemoState::On)
        } else if n == 8 {
            Some(WemoState::OnWithoutLoad)
        } else {
            Some(WemoState::Unknown(n as u16))
        }
    }

    /// The number written to the device for the state; `-1` for an unknown one.
    pub fn to_i8(&self) -> (r: i8)
        ensures
            r as int == self.wire_value(),
    {
        match *self {
            WemoState::Off => 0,
            WemoState::On => 1,
            WemoState::OnWithoutLoad => 8,
            WemoState::Unknown(_) => -1,
        }
    }
}

/// The mapping from wire codes to states is total on `0..=65535` and nowhere
/// else: 0, 1 and 8 give the three known states, every other code in range
/// gives `Unknown` carrying that code, and only `On` and `OnWithoutLoad`
/// count as on.
pub proof fn lemma_state_mapping_total(n: int)
    ensures
        state_of_code(n) is Some <==> 0 <= n <= 65535,
        n == 0 ==> state_of_code(n) == Some(WemoState::Off),
        n == 1 ==> state_of_code(n) == Some(WemoState::On),
        n == 8 ==> state_of_code(n) == Some(WemoState::OnWithoutLoad),
        0 <= n <= 65535 && n != 0 && n != 1 && n != 8 ==> state_of_code(n) == Some(
            WemoState::Unknown(n as u16),
        ) && (n as u16) as int == n,
        state_of_code(n) is Some ==> (state_of_code(n).unwrap().spec_is_on() <==> n == 1 || n
            == 8),
{
}

/// A known state written to the wire and read back is the same state.
pub proof fn lemma_known_state_round_trip(s: WemoState)
    requires
        !(s is Unknown),
    ensures
        state_of_code(s.wire_value()) == Some(s),
{
}

} // verus!
