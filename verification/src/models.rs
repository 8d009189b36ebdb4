//! The typed records the SDK returns: player account bindings, record-card
//! summaries, and the per-game chronicle payloads.

use vstd::prelude::*;
use crate::types::Game;

verus! {

/// One player's binding to a specific game.
#[derive(Debug, Clone, Copy, PartialEq, Eq, Structural)]
pub struct Account {
    pub game: Game,
    pub uid: u32,
}

impl Account {
    /// The game this binding belongs to.
    pub fn which_game(&self) -> (g: Game)
        ensures
            g == self.game,
    {
        self.game
    }

    /// The in-game UID of the binding.
    pub fn get_uid(&self) -> (u: u32)
        ensures
            u == self.uid,
    {
        self.uid
    }
}

/// The account-listing endpoint's payload.
#[derive(Debug)]
pub struct AccountList {
    pub list: Vec<Account>,
}

/// Summary statistics for one account.
#[derive(Debug)]
pub struct RecordCard {
    pub game: Game,
    pub uid: u32,
    pub nickname: String,
    pub level: u32,
}

/// The record-card endpoint's payload.
#[derive(Debug)]
pub struct RecordCardList {
    pub list: Vec<RecordCard>,
}

/// The real-time notes of an account: its stamina gauge.
#[derive(Debug, Clone, Copy, PartialEq, Eq, Structural)]
pub struct StarRailNote {
    pub current_stamina: u32,
    pub max_stamina: u32,
}

/// One roster entry of the character-listing endpoint.
#[derive(Debug)]
pub struct CharacterDetails {
    pub id: u32,
    pub name: String,
    pub level: u32,
    pub rarity: u32,
}

/// The character-listing endpoint's payload.
#[derive(Debug)]
pub struct Characters {
    pub list: Vec<CharacterDetails>,
}

/// The challenge-mode record of an account.
#[derive(Debug)]
pub struct Challenge {
    pub schedule_id: u32,
    pub begin_time: String,
    pub end_time: String,
}

/// The roguelike-mode record of an account.
#[derive(Debug)]
pub struct Rogue {
    pub schedule_id: u32,
    pub finished_count: u32,
}

/// The index half of the user-statistics record.
#[derive(Debug)]
pub struct PartialUserStats {
    pub active_days: u32,
    pub avatar_num: u32,
    pub achievement_num: u32,
    pub chest_num: u32,
}

/// The basic-info half of the user-statistics record.
#[derive(Debug)]
pub struct UserLittleInfo {
    pub nickname: String,
    pub level: u32,
}

/// The composite user-statistics record, merged from the two independent
/// sub-requests.
#[derive(Debug)]
pub struct UserStats {
    pub active_days: u32,
    pub avatar_num: u32,
    pub achievement_num: u32,
    pub chest_num: u32,
    pub nickname: String,
    pub level: u32,
}

impl UserStats {
    /// Merges the two halves of the user-statistics record; every field of
    /// either half is carried over unchanged.
    pub fn new(partial: PartialUserStats, little: UserLittleInfo) -> (r: UserStats)
        ensures
            r.active_days == partial.active_days,
            r.avatar_num == partial.avatar_num,
            r.achievement_num == partial.achievement_num,
            r.chest_num == partial.chest_num,
            r.nickname == little.nickname,
            r.level == little.level,
    {
        UserStats {
            active_days: partial.active_days,
            avatar_num: partial.avatar_num,
            achievement_num: partial.achievement_num,
            chest_num: partial.chest_num,
            nickname: little.nickname,
            level: little.level,
        }
    }
}

} // verus!
