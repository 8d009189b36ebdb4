//! Routing keys: the deployment region of the upstream service and the
//! supported game titles, together with their canonical wire names.

use vstd::prelude::*;

verus! {

/// Deployment family of the upstream service; used purely as a routing key.
#[derive(Debug, Eq, PartialEq, Hash, Copy, Clone, Structural)]
pub enum Region {
    OVERSEAS,
    CHINESE,
}

/// One supported title, used as a routing key and as the discriminator of
/// account lists.
#[derive(Debug, Eq, PartialEq, Hash, Copy, Clone, Structural)]
pub enum Game {
    GENSHIN,
    HONKAI,
    STARRAIL,
}

/// The short wire name of a region.
pub open spec fn region_name(r: Region) -> Seq<char> {
    match r {
        Region::OVERSEAS => "os"@,
        Region::CHINESE => "cn"@,
    }
}

/// The canonical path segment of a game in record-API URLs.
pub open spec fn game_path(g: Game) -> Seq<char> {
    match g {
        Game::GENSHIN => "genshin"@,
        Game::HONKAI => "honkai3rd"@,
        Game::STARRAIL => "hkrpg"@,
    }
}

impl Region {
    pub fn name(&self) -> (r: &'static str)
        ensures
            r@ == region_name(*self),
    {
        match self {
            Region::OVERSEAS => "os",
            Region::CHINESE => "cn",
        }
    }
}

impl Game {
    pub fn name(&self) -> (r: &'static str)
        ensures
            r@ == game_path(*self),
    {
        match self {
            Game::GENSHIN => "genshin",
            Game::HONKAI => "honkai3rd",
            Game::STARRAIL => "hkrpg",
        }
    }
}

/// The path-segment function is stable: equal games always map to the same
/// segment, so two lookups for the same title can never disagree.
pub proof fn lemma_game_path_stable(a: Game, b: Game)
    requires
        a == b,
    ensures
        game_path(a) == game_path(b),
{
}

} // verus!
