use vstd::prelude::*;

verus! {

/// Top-left corner of the companion window, in screen pixels.
#[derive(Clone, Copy, Debug, PartialEq, Eq, Structural)]
pub struct WindowPosition {
    pub x: i32,
    pub y: i32,
}

/// Width and height of the companion window, in pixels.
#[derive(Clone, Copy, Debug, PartialEq, Eq, Structural)]
pub struct WindowSize {
    pub width: i32,
    pub height: i32,
}

/// Paths of the three images the mascot cycles through; any of them may be empty.
#[derive(Clone, Debug, PartialEq, Eq)]
pub struct ImagePaths {
    pub typing1: String,
    pub typing2: String,
    pub idle: String,
}

/// The single persisted configuration record.
///
/// The opacity is held as the bit pattern of its IEEE-754 single-precision
/// value: the record only carries it, and the pattern keeps it exact.
#[derive(Clone, Debug, PartialEq, Eq)]
pub struct Settings {
    pub window_position: WindowPosition,
    pub window_size: WindowSize,
    pub animation_speed: i32,
    pub images: ImagePaths,
    pub opacity_bits: u32,
    pub always_on_top: bool,
}

/// Mathematical model of `Settings`: the strings seen as character sequences.
pub struct SettingsView {
    pub x: i32,
    pub y: i32,
    pub width: i32,
    pub height: i32,
    pub animation_speed: i32,
    pub typing1: Seq<char>,
    pub typing2: Seq<char>,
    pub idle: Seq<char>,
    pub opacity_bits: u32,
    pub always_on_top: bool,
}

impl View for Settings {
    type V = SettingsView;

    open spec fn view(&self) -> SettingsView {
        SettingsView {
            x: self.window_position.x,
            y: self.window_position.y,
            width: self.window_size.width,
            height: self.window_size.height,
            animation_speed: self.animation_speed,
            typing1: self.images.typing1@,
            typing2: self.images.typing2@,
            idle: self.images.idle@,
            opacity_bits: self.opacity_bits,
            always_on_top: self.always_on_top,
        }
    }
}

/// Bit pattern of the single-precision value 1.0.
pub const OPACITY_ONE_BITS: u32 = 0x3f80_0000;

/// Lower end of the documented animation speed range (not enforced).
pub const MIN_ANIMATION_SPEED: i32 = 50;

/// Upper end of the documented animation speed range (not enforced).
pub const MAX_ANIMATION_SPEED: i32 = 500;

/// The settings used when nothing has been saved: window at (100, 100), 200 by 200,
/// speed 200, no images, fully opaque, always on top.
pub open spec fn default_view() -> SettingsView {
    SettingsView {
        x: 100,
        y: 100,
        width: 200,
        height: 200,
        animation_speed: 200,
        typing1: Seq::empty(),
        typing2: Seq::empty(),
        idle: Seq::empty(),
        opacity_bits: OPACITY_ONE_BITS,
        always_on_top: true,
    }
}

impl Default for Settings {
    fn default() -> (r: Settings)
        ensures
            r@ == default_view(),
    {
        Settings {
            window_position: WindowPosition { x: 100, y: 100 },
            window_size: WindowSize { width: 200, height: 200 },
            animation_speed: 200,
            images: ImagePaths { typing1: String::new(), typing2: String::new(), idle: String::new() },
            opacity_bits: OPACITY_ONE_BITS,
            always_on_top: true,
        }
    }
}

/// The default animation speed lies in the documented range.
pub proof fn lemma_default_speed_in_range()
    ensures
        MIN_ANIMATION_SPEED <= default_view().animation_speed <= MAX_ANIMATION_SPEED,
{
}

} // verus!
