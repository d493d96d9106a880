use vstd::prelude::*;

verus! {

/// The game a video is prepared for.
#[derive(Clone, Copy, Debug, PartialEq, Eq, Structural, PartialOrd, Ord, Hash)]
pub enum GameFormat {
    /// Scooby Doo! Night of 100 Frights
    N100F,
    /// SpongeBob SquarePants: Battle for Bikini Bottom
    Battle,
    /// The SpongeBob SquarePants Movie
    Movie,
    /// The Incredibles
    Incredibles,
    /// The Incredibles: Rise of the Underminer
    ROTU,
}

impl GameFormat {
    /// The (width, height) in pixels that videos of this game must have.
    pub open spec fn resolution(self) -> (int, int) {
        match self {
            GameFormat::N100F | GameFormat::Battle => (640, 480),
            GameFormat::Movie | GameFormat::ROTU => (512, 480),
            GameFormat::Incredibles => (512, 448),
        }
    }

    /// Returns the width and height that a video for this game must have.
    pub fn _get_resolution(&self) -> (r: (i32, i32))
        ensures
            r.0 as int == self.resolution().0,
            r.1 as int == self.resolution().1,
            *self == GameFormat::N100F ==> r == (640i32, 480i32),
            *self == GameFormat::Battle ==> r == (640i32, 480i32),
            *self == GameFormat::Movie ==> r == (512i32, 480i32),
            *self == GameFormat::ROTU ==> r == (512i32, 480i32),
            *self == GameFormat::Incredibles ==> r == (512i32, 448i32),
    {
        match *self {
            GameFormat::N100F | GameFormat::Battle => (640, 480),
            GameFormat::Movie | GameFormat::ROTU => (512, 480),
            GameFormat::Incredibles => (512, 448),
        }
    }
}

/// Every game has exactly one resolution, and it is one of the three sizes
/// the supported games use: 640x480, 512x480 or 512x448.
pub proof fn lemma_resolution_total(g: GameFormat)
    ensures
        g.resolution() == (640int, 480int) || g.resolution() == (512int, 480int)
            || g.resolution() == (512int, 448int),
        g.resolution() == (640int, 480int) <==> (g == GameFormat::N100F || g == GameFormat::Battle),
        g.resolution() == (512int, 480int) <==> (g == GameFormat::Movie || g == GameFormat::ROTU),
        g.resolution() == (512int, 448int) <==> g == GameFormat::Incredibles,
{
}

} // verus!
