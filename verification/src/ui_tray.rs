//! What the tray menu offers, and the names it shows for the input methods.

use vstd::prelude::*;
use crate::datatype::InputType;

verus! {

/// A choice made in the tray menu.
#[derive(Debug, Clone, Copy, PartialEq, Eq, Structural)]
pub enum TrayEvent {
    ToggleEnabled,
    SetInputType(InputType),
    OpenSettings,
    Exit,
}

/// What the tray menu shows: whether the engine is on, and the input method.
#[derive(Debug, Clone, Copy, PartialEq, Eq, Structural)]
pub struct TrayMenuConfig {
    pub enabled: bool,
    pub current_input_type: InputType,
}

impl Default for TrayMenuConfig {
    fn default() -> (r: Self)
        ensures
            r.enabled,
            r.current_input_type == InputType::Telex,
    {
        TrayMenuConfig { enabled: true, current_input_type: InputType::Telex }
    }
}

/// The name of an input method as menus show it.
pub open spec fn spec_input_type_label(it: InputType) -> Seq<char> {
    match it {
        InputType::Telex => "Telex"@,
        InputType::Vni => "VNI"@,
        InputType::SimpleTelex1 => "Simple Telex 1"@,
        InputType::SimpleTelex2 => "Simple Telex 2"@,
    }
}

/// The name of an input method for display.
pub fn input_type_label(it: InputType) -> (r: &'static str)
    ensures r@ == spec_input_type_label(it),
{
    match it {
        InputType::Telex => "Telex",
        InputType::Vni => "VNI",
        InputType::SimpleTelex1 => "Simple Telex 1",
        InputType::SimpleTelex2 => "Simple Telex 2",
    }
}

} // verus!
