//! Display resolution presets and their width/height encoding.

use vstd::prelude::*;

verus! {

/// A display resolution: one of the common presets, or a custom
/// width/height pair.
#[derive(Debug, Clone, Copy, PartialEq, Eq, Structural)]
pub enum Resolution {
    /// qHD; 960x540
    MiniHD,
    /// 1280x720
    HD,
    /// 1920x1080
    FullHD,
    /// 2560x1440
    QuadHD,
    /// 3840x2160
    UltraHD,
    /// Any other width/height pair
    Custom(u64, u64),
}

impl Resolution {
    /// The width/height pair a resolution stands for.
    pub open spec fn spec_pair(self) -> (u64, u64) {
        match self {
            Resolution::MiniHD => (960u64, 540u64),
            Resolution::HD => (1280u64, 720u64),
            Resolution::FullHD => (1920u64, 1080u64),
            Resolution::QuadHD => (2560u64, 1440u64),
            Resolution::UltraHD => (3840u64, 2160u64),
            Resolution::Custom(w, h) => (w, h),
        }
    }

    /// The resolution a width/height pair decodes to: the preset with that
    /// exact pair if one exists, else a custom pair.
    pub open spec fn spec_from_pair(width: u64, height: u64) -> Resolution {
        if width == 960 && height == 540 {
            Resolution::MiniHD
        } else if width == 1280 && height == 720 {
            Resolution::HD
        } else if width == 1920 && height == 1080 {
            Resolution::FullHD
        } else if width == 2560 && height == 1440 {
            Resolution::QuadHD
        } else if width == 3840 && height == 2160 {
            Resolution::UltraHD
        } else {
            Resolution::Custom(width, height)
        }
    }

    /// The index a resolution encodes to; every custom pair shares one index.
    pub open spec fn spec_index(self) -> u32 {
        match self {
            Resolution::MiniHD => 0u32,
            Resolution::HD => 1u32,
            Resolution::FullHD => 2u32,
            Resolution::QuadHD => 3u32,
            Resolution::UltraHD => 4u32,
            Resolution::Custom(_, _) => 5u32,
        }
    }

    /// All preset resolutions, smallest first.
    pub fn list() -> (r: Vec<Resolution>)
        ensures
            r@ == seq![
                Resolution::MiniHD,
                Resolution::HD,
                Resolution::FullHD,
                Resolution::QuadHD,
                Resolution::UltraHD,
            ],
    {
        let mut r: Vec<Resolution> = Vec::new();
        r.push(Resolution::MiniHD);
        r.push(Resolution::HD);
        r.push(Resolution::FullHD);
        r.push(Resolution::QuadHD);
        r.push(Resolution::UltraHD);
        proof {
            assert(r@ =~= seq![
                Resolution::MiniHD,
                Resolution::HD,
                Resolution::FullHD,
                Resolution::QuadHD,
                Resolution::UltraHD,
            ]);
        }
        r
    }

    /// Decode a width/height pair: the matching preset if there is one,
    /// else `Custom(width, height)`. The pair always survives the round
    /// trip through `get_pair`.
    pub fn from_pair(width: u64, height: u64) -> (r: Self)
        ensures
            r == Self::spec_from_pair(width, height),
            r.spec_pair() == (width, height),
    {
        if width == 960 && height == 540 {
            Resolution::MiniHD
        } else if width == 1280 && height == 720 {
            Resolution::HD
        } else if width == 1920 && height == 1080 {
            Resolution::FullHD
        } else if width == 2560 && height == 1440 {
            Resolution::QuadHD
        } else if width == 3840 && height == 2160 {
            Resolution::UltraHD
        } else {
            Resolution::Custom(width, height)
        }
    }

    /// The width/height pair of this resolution.
    pub fn get_pair(&self) -> (r: (u64, u64))
        ensures
            r == self.spec_pair(),
    {
        match self {
            Resolution::MiniHD => (960, 540),
            Resolution::HD => (1280, 720),
            Resolution::FullHD => (1920, 1080),
            Resolution::QuadHD => (2560, 1440),
            Resolution::UltraHD => (3840, 2160),
            Resolution::Custom(w, h) => (*w, *h),
        }
    }

    /// Decode an index: 0 to 4 give the presets in the order of `list`,
    /// 5 gives a zero-sized custom pair, anything larger is rejected.
    pub fn try_from(value: u32) -> (r: Result<Self, String>)
        ensures
            value == 0 ==> (r matches Ok(res) && res == Resolution::MiniHD),
            value == 1 ==> (r matches Ok(res) && res == Resolution::HD),
            value == 2 ==> (r matches Ok(res) && res == Resolution::FullHD),
            value == 3 ==> (r matches Ok(res) && res == Resolution::QuadHD),
            value == 4 ==> (r matches Ok(res) && res == Resolution::UltraHD),
            value == 5 ==> (r matches Ok(res) && res == Resolution::Custom(0, 0)),
            value > 5 ==> (r matches Err(e) && e@ == "Failed to convert number to Resolution enum"@),
            (r matches Ok(res) ==> res.spec_index() == value),
    {
        match value {
            0 => Ok(Resolution::MiniHD),
            1 => Ok(Resolution::HD),
            2 => Ok(Resolution::FullHD),
            3 => Ok(Resolution::QuadHD),
            4 => Ok(Resolution::UltraHD),
            5 => Ok(Resolution::Custom(0, 0)),
            _ => Err("Failed to convert number to Resolution enum".to_owned()),
        }
    }

    /// Encode this resolution as an index; the inverse of `try_from` on
    /// the presets.
    pub fn into(self) -> (r: u32)
        ensures
            r == self.spec_index(),
    {
        match self {
            Resolution::MiniHD => 0,
            Resolution::HD => 1,
            Resolution::FullHD => 2,
            Resolution::QuadHD => 3,
            Resolution::UltraHD => 4,
            Resolution::Custom(_, _) => 5,
        }
    }
}

} // verus!
