//! Presentation-side tags that travel with physics entities.  The lerp and
//! animation timers of the rendering layer are floating-point and live with
//! the engine shell; what is kept here is the integer-valued data and the
//! sprite-sheet cycling used by the editor.

use vstd::prelude::*;

verus! {

/// Sprite pulse phase counter.
#[derive(Clone, Copy, Debug, PartialEq, Eq, Structural, Default)]
pub struct PulseAnimation(pub u32);

/// Marks an entity positioned in screen space rather than world space.
#[derive(Clone, Copy, Debug, PartialEq, Eq, Structural, Default)]
pub struct AbsolutePositioning;

/// Sprite index (depth layer) and position in the seamless background chain.
#[derive(Clone, Copy, Debug, PartialEq, Eq, Structural, Default)]
pub struct BackgroundParallax(pub u32, pub i32);

/// The sprite sheets the game ships with.
#[derive(Clone, Copy, Debug, PartialEq, Eq, Structural)]
pub enum SpriteSheetType {
    Tiles,
    Didi,
    Snap,
    Ui,
    Animation,
    RollingHillsBg,
}

impl Default for SpriteSheetType {
    fn default() -> (r: Self)
        ensures
            r == SpriteSheetType::Tiles,
    {
        SpriteSheetType::Tiles
    }
}

/// The sheet after this one, wrapping at the end of the list.
pub open spec fn next_sheet(s: SpriteSheetType) -> SpriteSheetType {
    match s {
        SpriteSheetType::Tiles => SpriteSheetType::Didi,
        SpriteSheetType::Didi => SpriteSheetType::Snap,
        SpriteSheetType::Snap => SpriteSheetType::Ui,
        SpriteSheetType::Ui => SpriteSheetType::Animation,
        SpriteSheetType::Animation => SpriteSheetType::RollingHillsBg,
        SpriteSheetType::RollingHillsBg => SpriteSheetType::Tiles,
    }
}

/// The sheet before this one, wrapping at the start of the list.
pub open spec fn prev_sheet(s: SpriteSheetType) -> SpriteSheetType {
    match s {
        SpriteSheetType::Tiles => SpriteSheetType::RollingHillsBg,
        SpriteSheetType::Didi => SpriteSheetType::Tiles,
        SpriteSheetType::Snap => SpriteSheetType::Didi,
        SpriteSheetType::Ui => SpriteSheetType::Snap,
        SpriteSheetType::Animation => SpriteSheetType::Ui,
        SpriteSheetType::RollingHillsBg => SpriteSheetType::Animation,
    }
}

impl SpriteSheetType {
    /// Cycles forward through the sheets.
    pub fn next(&self) -> (r: Self)
        ensures
            r == next_sheet(*self),
            prev_sheet(r) == *self,
    {
        match self {
            SpriteSheetType::Tiles => SpriteSheetType::Didi,
            SpriteSheetType::Didi => SpriteSheetType::Snap,
            SpriteSheetType::Snap => SpriteSheetType::Ui,
            SpriteSheetType::Ui => SpriteSheetType::Animation,
            SpriteSheetType::Animation => SpriteSheetType::RollingHillsBg,
            SpriteSheetType::RollingHillsBg => SpriteSheetType::Tiles,
        }
    }

    /// Cycles backward through the sheets.
    pub fn prev(&self) -> (r: Self)
        ensures
            r == prev_sheet(*self),
            next_sheet(r) == *self,
    {
        match self {
            SpriteSheetType::Tiles => SpriteSheetType::RollingHillsBg,
            SpriteSheetType::Didi => SpriteSheetType::Tiles,
            SpriteSheetType::Snap => SpriteSheetType::Didi,
            SpriteSheetType::Ui => SpriteSheetType::Snap,
            SpriteSheetType::Animation => SpriteSheetType::Ui,
            SpriteSheetType::RollingHillsBg => SpriteSheetType::Animation,
        }
    }
}

} // verus!
