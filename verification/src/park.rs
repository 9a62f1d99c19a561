//! Parking-lot state of the end effectors, as reported by the Teensy.
use vstd::prelude::*;
use crate::text::chars_eq_str;

verus! {

/// Which end effector is in use (i.e. not parked).
#[derive(Copy, Clone, Debug, PartialEq, Eq, Structural)]
pub enum ParkState {
    /// All end effectors parked (named `None` in flow files)
    AllParked,
    /// The Optoforce is out
    OptoForce,
    /// The rigid stick is out
    Stick,
    /// The Biotac is out
    BioTac,
    /// Multiple end effectors unparked! The sky is falling!
    Multiple,
}

/// The short label of each parking state.
pub open spec fn short_name(p: ParkState) -> Seq<char> {
    match p {
        ParkState::AllParked => "center"@,
        ParkState::OptoForce => "opto"@,
        ParkState::Stick => "stick"@,
        ParkState::BioTac => "bio"@,
        ParkState::Multiple => "multi"@,
    }
}

/// The variant name of each parking state, as accepted by `from_name`.
pub open spec fn variant_name(p: ParkState) -> Seq<char> {
    match p {
        ParkState::AllParked => "None"@,
        ParkState::OptoForce => "OptoForce"@,
        ParkState::Stick => "Stick"@,
        ParkState::BioTac => "BioTac"@,
        ParkState::Multiple => "Multiple"@,
    }
}

/// The byte value that decodes to each parking state (`Multiple` is `-1` truncated to a byte).
pub open spec fn park_byte(p: ParkState) -> u8 {
    match p {
        ParkState::AllParked => 0,
        ParkState::OptoForce => 1,
        ParkState::Stick => 2,
        ParkState::BioTac => 16,
        ParkState::Multiple => 255,
    }
}

/// The parking state named exactly `s`, if any.
pub open spec fn spec_from_name(s: Seq<char>) -> Option<ParkState> {
    if s == "None"@ {
        Some(ParkState::AllParked)
    } else if s == "OptoForce"@ {
        Some(ParkState::OptoForce)
    } else if s == "Stick"@ {
        Some(ParkState::Stick)
    } else if s == "BioTac"@ {
        Some(ParkState::BioTac)
    } else if s == "Multiple"@ {
        Some(ParkState::Multiple)
    } else {
        None
    }
}

/// The parking state whose byte value is `v`, if any.
pub open spec fn spec_from_byte(v: u8) -> Option<ParkState> {
    if v == 0 {
        Some(ParkState::AllParked)
    } else if v == 1 {
        Some(ParkState::OptoForce)
    } else if v == 2 {
        Some(ParkState::Stick)
    } else if v == 16 {
        Some(ParkState::BioTac)
    } else if v == 255 {
        Some(ParkState::Multiple)
    } else {
        None
    }
}

/// The parking state that a raw Teensy status byte reports: the active-low switch bits
/// (bits 0, 1 and 4) are inverted and the others cleared, and any pattern that is not a
/// single known end effector means `Multiple`.
pub open spec fn spec_from_status(val: u8) -> ParkState {
    let masked = (!val & !0b1110_1100u8) as u8;
    match spec_from_byte(masked) {
        Some(p) => p,
        None => ParkState::Multiple,
    }
}

impl ParkState {
    /// Short label used in file names and messages.
    pub fn short(&self) -> (r: &'static str)
        ensures
            r@ == short_name(*self),
    {
        match *self {
            ParkState::AllParked => "center",
            ParkState::OptoForce => "opto",
            ParkState::Stick => "stick",
            ParkState::BioTac => "bio",
            ParkState::Multiple => "multi",
        }
    }

    /// Parking state when no Teensy hardware is attached: the stick is taken to be out.
    pub fn metermaid() -> (r: Option<ParkState>)
        ensures
            r == Some(ParkState::Stick),
    {
        Some(ParkState::Stick)
    }

    /// Converts a byte to a parking state (the byte must equal the state's value cast to `u8`).
    pub fn try_from_u8(v: u8) -> (r: Option<ParkState>)
        ensures
            r == spec_from_byte(v),
            r matches Some(p) ==> park_byte(p) == v,
    {
        if v == 0 {
            Some(ParkState::AllParked)
        } else if v == 1 {
            Some(ParkState::OptoForce)
        } else if v == 2 {
            Some(ParkState::Stick)
        } else if v == 16 {
            Some(ParkState::BioTac)
        } else if v == 255 {
            Some(ParkState::Multiple)
        } else {
            None
        }
    }

    /// Parses a parking state from its exact variant name.
    pub fn from_name(s: &Vec<char>) -> (r: Option<ParkState>)
        ensures
            r == spec_from_name(s@),
    {
        if chars_eq_str(s, "None") {
            Some(ParkState::AllParked)
        } else if chars_eq_str(s, "OptoForce") {
            Some(ParkState::OptoForce)
        } else if chars_eq_str(s, "Stick") {
            Some(ParkState::Stick)
        } else if chars_eq_str(s, "BioTac") {
            Some(ParkState::BioTac)
        } else if chars_eq_str(s, "Multiple") {
            Some(ParkState::Multiple)
        } else {
            None
        }
    }

    /// Decodes the raw status byte that the Teensy answers to a parking-state query.
    pub fn from_status(val: u8) -> (r: ParkState)
        ensures
            r == spec_from_status(val),
    {
        let masked: u8 = !val & !0b1110_1100u8;
        match ParkState::try_from_u8(masked) {
            Some(p) => p,
            None => ParkState::Multiple,
        }
    }
}

/// Decoding the variant name of a parking state gives that state back.
pub proof fn lemma_name_roundtrip(p: ParkState)
    ensures
        spec_from_name(variant_name(p)) == Some(p),
{
    reveal_strlit("None");
    reveal_strlit("OptoForce");
    reveal_strlit("Stick");
    reveal_strlit("BioTac");
    reveal_strlit("Multiple");
    assert("None"@.len() == 4);
    assert("OptoForce"@.len() == 9);
    assert("Stick"@.len() == 5);
    assert("BioTac"@.len() == 6);
    assert("Multiple"@.len() == 8);
    assert("Stick"@[0] != "BioTac"@[0]);
}

/// Decoding the byte value of a parking state gives that state back.
pub proof fn lemma_byte_roundtrip(p: ParkState)
    ensures
        spec_from_byte(park_byte(p)) == Some(p),
{
}

} // verus!
