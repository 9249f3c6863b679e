use vstd::prelude::*;

verus! {

/// How an image is scaled, cropped or tiled to cover a screen.
#[derive(Debug, Clone, Copy, PartialEq, Eq, Structural)]
pub enum FillMode {
    Stretch,
    Fit,
    Crop,
    Tile,
    TileVertical,
    TileHorizontal,
    Pad,
}

/// Largest ordinal of a fill mode.
pub const MAX_FILL_MODE: u8 = 6;

impl FillMode {
    /// The ordinal that the desktop shell expects for this mode.
    pub open spec fn ordinal(self) -> u8 {
        match self {
            FillMode::Stretch => 0,
            FillMode::Fit => 1,
            FillMode::Crop => 2,
            FillMode::Tile => 3,
            FillMode::TileVertical => 4,
            FillMode::TileHorizontal => 5,
            FillMode::Pad => 6,
        }
    }

    pub fn to_u8(&self) -> (r: u8)
        ensures
            r == self.ordinal(),
            r <= MAX_FILL_MODE,
    {
        match self {
            FillMode::Stretch => 0,
            FillMode::Fit => 1,
            FillMode::Crop => 2,
            FillMode::Tile => 3,
            FillMode::TileVertical => 4,
            FillMode::TileHorizontal => 5,
            FillMode::Pad => 6,
        }
    }

    /// The mode with the given ordinal; `None` for an ordinal past the last mode.
    pub fn from_u8(n: u8) -> (r: Option<FillMode>)
        ensures
            r is Some <==> n <= MAX_FILL_MODE,
            r matches Some(m) ==> m.ordinal() == n,
    {
        match n {
            0 => Some(FillMode::Stretch),
            1 => Some(FillMode::Fit),
            2 => Some(FillMode::Crop),
            3 => Some(FillMode::Tile),
            4 => Some(FillMode::TileVertical),
            5 => Some(FillMode::TileHorizontal),
            6 => Some(FillMode::Pad),
            _ => None,
        }
    }
}


} // verus!
