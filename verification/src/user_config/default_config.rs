//! The parts of the user configuration that hold no fractional numbers.
use vstd::prelude::*;

use crate::utils::text::str_eq;

verus! {

/// How the radar view is drawn.
#[derive(Debug, Clone, Copy, PartialEq, Eq, Structural)]
pub enum CameraType {
    /// Fully zoomed out square that does not rotate.
    Static,
    /// Fully zoomed out, rotating around the map centre with the player's
    /// look direction.
    Rotating,
    /// Follows the player zoomed in and rotates with the look direction.
    RotatingFollow,
}

/// The name a camera type is written with.
pub open spec fn spec_camera_name(c: CameraType) -> Seq<char> {
    match c {
        CameraType::Static => "Static"@,
        CameraType::Rotating => "Rotating"@,
        CameraType::RotatingFollow => "RotatingFollow"@,
    }
}

/// The camera type a name stands for; any other text gives the default,
/// `Static`.
pub open spec fn spec_camera_from_name(s: Seq<char>) -> CameraType {
    if s == "Static"@ {
        CameraType::Static
    } else if s == "Rotating"@ {
        CameraType::Rotating
    } else if s == "RotatingFollow"@ {
        CameraType::RotatingFollow
    } else {
        CameraType::Static
    }
}

impl CameraType {
    /// The name the camera type is written with, as its variant is spelled.
    pub fn name(&self) -> (res: &'static str)
        ensures
            res@ == spec_camera_name(*self),
    {
        match self {
            CameraType::Static => "Static",
            CameraType::Rotating => "Rotating",
            CameraType::RotatingFollow => "RotatingFollow",
        }
    }

    /// The camera type named `v`, or the default for an unknown name.
    pub fn from_name(v: &str) -> (res: CameraType)
        ensures
            res == spec_camera_from_name(v@),
    {
        if str_eq(v, "Static") {
            CameraType::Static
        } else if str_eq(v, "Rotating") {
            CameraType::Rotating
        } else if str_eq(v, "RotatingFollow") {
            CameraType::RotatingFollow
        } else {
            CameraType::Static
        }
    }
}

/// A camera type's name reads back as the same camera type.
pub proof fn lemma_camera_name_roundtrip(c: CameraType)
    ensures
        spec_camera_from_name(spec_camera_name(c)) == c,
{
    reveal_strlit("Static");
    reveal_strlit("Rotating");
    reveal_strlit("RotatingFollow");
    assert("Static"@.len() == 6);
    assert("Rotating"@.len() == 8);
    assert("RotatingFollow"@.len() == 14);
    assert("Rotating"@ != "Static"@);
    assert("RotatingFollow"@ != "Static"@);
    assert("RotatingFollow"@ != "Rotating"@);
}

impl Default for CameraType {
    fn default() -> (res: CameraType)
        ensures
            res == CameraType::Static,
    {
        CameraType::Static
    }
}

impl From<String> for CameraType {
    fn from(v: String) -> (res: CameraType) {
        CameraType::from_name(v.as_str())
    }
}

impl vstd::std_specs::convert::FromSpecImpl<String> for CameraType {
    open spec fn obeys_from_spec() -> bool {
        true
    }

    open spec fn from_spec(v: String) -> CameraType {
        spec_camera_from_name(v@)
    }
}

/// The radar settings.
#[derive(Debug, Clone, Copy)]
pub struct Radar {
    pub enabled: bool,
    pub show_usernames: bool,
    pub camera_type: CameraType,
}

impl Default for Radar {
    fn default() -> (res: Radar)
        ensures
            !res.enabled,
            !res.show_usernames,
            res.camera_type == CameraType::Static,
    {
        Radar { enabled: false, show_usernames: false, camera_type: CameraType::Static }
    }
}

/// The aim assist settings.
#[derive(Debug, Clone, Copy)]
pub struct AimBot {
    pub visibility_check: bool,
    pub delay_ms: u32,
}

impl Default for AimBot {
    fn default() -> (res: AimBot)
        ensures
            !res.visibility_check,
            res.delay_ms == 0,
    {
        AimBot { visibility_check: false, delay_ms: 0 }
    }
}

/// The key bindings, as virtual key codes.
#[derive(Debug, Clone, Copy)]
pub struct KeyBindings {
    pub trigger: i32,
}

impl Default for KeyBindings {
    /// The trigger is bound to mouse button 5 (virtual key 0x06).
    fn default() -> (res: KeyBindings)
        ensures
            res.trigger == 0x06,
    {
        KeyBindings { trigger: 0x06 }
    }
}

} // verus!
