//! Response models of the remote match API, and the projection of a
//! raw match record into a per-player display view.
//!
//! The enumerations are closed: a wire code outside the known set is a
//! hard decoding failure, never a default.

use std::collections::VecDeque;
use vstd::prelude::*;
use crate::error::Error;
use crate::text::{push_dec_i64, push_one, push_str_chars, spec_dec_int, string_of_chars};

verus! {

// ---------------------------------------------------------------------------
// Closed wire enumerations
// ---------------------------------------------------------------------------

/// The lobby type of a match, a closed enumeration of wire codes.
#[derive(Clone, Copy, Debug, PartialEq, Eq, Structural)]
pub enum LobbyType {
    Invalid,
    PublicMatchmaking,
    Practice,
    Tournament,
    Tutorial,
    CoopWithBots,
    TeamMatch,
    SoloQueue,
    Ranked,
    SoloMid1v1,
}

impl LobbyType {
    /// The wire code of the lobby type.
    pub open spec fn spec_code(self) -> int {
        match self {
            LobbyType::Invalid => -1,
            LobbyType::PublicMatchmaking => 0,
            LobbyType::Practice => 1,
            LobbyType::Tournament => 2,
            LobbyType::Tutorial => 3,
            LobbyType::CoopWithBots => 4,
            LobbyType::TeamMatch => 5,
            LobbyType::SoloQueue => 6,
            LobbyType::Ranked => 7,
            LobbyType::SoloMid1v1 => 8,
        }
    }

    /// The lobby type of a wire code; none outside the closed set.
    pub open spec fn spec_from_code(value: int) -> Option<LobbyType> {
        if value == -1 {
            Some(LobbyType::Invalid)
        } else if value == 0 {
            Some(LobbyType::PublicMatchmaking)
        } else if value == 1 {
            Some(LobbyType::Practice)
        } else if value == 2 {
            Some(LobbyType::Tournament)
        } else if value == 3 {
            Some(LobbyType::Tutorial)
        } else if value == 4 {
            Some(LobbyType::CoopWithBots)
        } else if value == 5 {
            Some(LobbyType::TeamMatch)
        } else if value == 6 {
            Some(LobbyType::SoloQueue)
        } else if value == 7 {
            Some(LobbyType::Ranked)
        } else if value == 8 {
            Some(LobbyType::SoloMid1v1)
        } else {
            None
        }
    }

    /// The wire code of the lobby type.
    pub fn code(self) -> (r: i32)
        ensures
            r as int == self.spec_code(),
    {
        match self {
            LobbyType::Invalid => -1,
            LobbyType::PublicMatchmaking => 0,
            LobbyType::Practice => 1,
            LobbyType::Tournament => 2,
            LobbyType::Tutorial => 3,
            LobbyType::CoopWithBots => 4,
            LobbyType::TeamMatch => 5,
            LobbyType::SoloQueue => 6,
            LobbyType::Ranked => 7,
            LobbyType::SoloMid1v1 => 8,
        }
    }

    /// The strict conversion from a wire code; a code outside the
    /// closed set yields nothing.
    pub fn from_code(value: i32) -> (r: Option<LobbyType>)
        ensures
            r == LobbyType::spec_from_code(value as int),
    {
        if value == -1 {
            Some(LobbyType::Invalid)
        } else if value == 0 {
            Some(LobbyType::PublicMatchmaking)
        } else if value == 1 {
            Some(LobbyType::Practice)
        } else if value == 2 {
            Some(LobbyType::Tournament)
        } else if value == 3 {
            Some(LobbyType::Tutorial)
        } else if value == 4 {
            Some(LobbyType::CoopWithBots)
        } else if value == 5 {
            Some(LobbyType::TeamMatch)
        } else if value == 6 {
            Some(LobbyType::SoloQueue)
        } else if value == 7 {
            Some(LobbyType::Ranked)
        } else if value == 8 {
            Some(LobbyType::SoloMid1v1)
        } else {
            None
        }
    }
}

/// Wire codes round-trip through the lobby-type enumeration.
pub proof fn lemma_lobby_type_round_trip(t: LobbyType, value: int)
    ensures
        LobbyType::spec_from_code(t.spec_code()) == Some(t),
        LobbyType::spec_from_code(value) == Some(t) ==> t.spec_code() == value,
{
}

/// The game mode of a match, a closed enumeration of wire codes.
#[derive(Clone, Copy, Debug, PartialEq, Eq, Structural)]
pub enum GameMode {
    Unknown,
    AllPick,
    CaptainMode,
    RandomDraft,
    SingleDraft,
    AllRandom,
    Intro,
    Diretide,
    ReverseCaptainMode,
    Greeviling,
    Tutorial,
    MidOnly,
    LeastPlayed,
    NewPlayerPool,
    CompendiumMatchmaking,
    CoopVsBots,
    CaptainsDraft,
    AbilityDraft,
    AllRandomDeathMatch,
    OneVsOneMid,
    RankedMatchmaking,
    Turbo,
}

impl GameMode {
    /// The wire code of the game mode.
    pub open spec fn spec_code(self) -> int {
        match self {
            GameMode::Unknown => 0,
            GameMode::AllPick => 1,
            GameMode::CaptainMode => 2,
            GameMode::RandomDraft => 3,
            GameMode::SingleDraft => 4,
            GameMode::AllRandom => 5,
            GameMode::Intro => 6,
            GameMode::Diretide => 7,
            GameMode::ReverseCaptainMode => 8,
            GameMode::Greeviling => 9,
            GameMode::Tutorial => 10,
            GameMode::MidOnly => 11,
            GameMode::LeastPlayed => 12,
            GameMode::NewPlayerPool => 13,
            GameMode::CompendiumMatchmaking => 14,
            GameMode::CoopVsBots => 15,
            GameMode::CaptainsDraft => 16,
            GameMode::AbilityDraft => 18,
            GameMode::AllRandomDeathMatch => 20,
            GameMode::OneVsOneMid => 21,
            GameMode::RankedMatchmaking => 22,
            GameMode::Turbo => 23,
        }
    }

    /// The game mode of a wire code; none outside the closed set.
    pub open spec fn spec_from_code(value: int) -> Option<GameMode> {
        if value == 0 {
            Some(GameMode::Unknown)
        } else if value == 1 {
            Some(GameMode::AllPick)
        } else if value == 2 {
            Some(GameMode::CaptainMode)
        } else if value == 3 {
            Some(GameMode::RandomDraft)
        } else if value == 4 {
            Some(GameMode::SingleDraft)
        } else if value == 5 {
            Some(GameMode::AllRandom)
        } else if value == 6 {
            Some(GameMode::Intro)
        } else if value == 7 {
            Some(GameMode::Diretide)
        } else if value == 8 {
            Some(GameMode::ReverseCaptainMode)
        } else if value == 9 {
            Some(GameMode::Greeviling)
        } else if value == 10 {
            Some(GameMode::Tutorial)
        } else if value == 11 {
            Some(GameMode::MidOnly)
        } else if value == 12 {
            Some(GameMode::LeastPlayed)
        } else if value == 13 {
            Some(GameMode::NewPlayerPool)
        } else if value == 14 {
            Some(GameMode::CompendiumMatchmaking)
        } else if value == 15 {
            Some(GameMode::CoopVsBots)
        } else if value == 16 {
            Some(GameMode::CaptainsDraft)
        } else if value == 18 {
            Some(GameMode::AbilityDraft)
        } else if value == 20 {
            Some(GameMode::AllRandomDeathMatch)
        } else if value == 21 {
            Some(GameMode::OneVsOneMid)
        } else if value == 22 {
            Some(GameMode::RankedMatchmaking)
        } else if value == 23 {
            Some(GameMode::Turbo)
        } else {
            None
        }
    }

    /// The canonical display name of the game mode.
    pub open spec fn spec_name(self) -> Seq<char> {
        match self {
            GameMode::Unknown => "None"@,
            GameMode::AllPick => "AllPick"@,
            GameMode::CaptainMode => "CaptainMode"@,
            GameMode::RandomDraft => "RandomDraft"@,
            GameMode::SingleDraft => "SingleDraft"@,
            GameMode::AllRandom => "AllRandom"@,
            GameMode::Intro => "Intro"@,
            GameMode::Diretide => "Diretide"@,
            GameMode::ReverseCaptainMode => "ReverseCaptainMode"@,
            GameMode::Greeviling => "Greeviling"@,
            GameMode::Tutorial => "Tutorial"@,
            GameMode::MidOnly => "MidOnly"@,
            GameMode::LeastPlayed => "LeastPlayed"@,
            GameMode::NewPlayerPool => "NewPlayerPool"@,
            GameMode::CompendiumMatchmaking => "CompendiumMatchmaking"@,
            GameMode::CoopVsBots => "CoopVsBots"@,
            GameMode::CaptainsDraft => "CaptainsDraft"@,
            GameMode::AbilityDraft => "AbilityDraft"@,
            GameMode::AllRandomDeathMatch => "AllRandomDeathMatch"@,
            GameMode::OneVsOneMid => "OneVsOneMid"@,
            GameMode::RankedMatchmaking => "RankedMatchmaking"@,
            GameMode::Turbo => "Turbo"@,
        }
    }

    /// The wire code of the game mode.
    pub fn code(self) -> (r: i32)
        ensures
            r as int == self.spec_code(),
    {
        match self {
            GameMode::Unknown => 0,
            GameMode::AllPick => 1,
            GameMode::CaptainMode => 2,
            GameMode::RandomDraft => 3,
            GameMode::SingleDraft => 4,
            GameMode::AllRandom => 5,
            GameMode::Intro => 6,
            GameMode::Diretide => 7,
            GameMode::ReverseCaptainMode => 8,
            GameMode::Greeviling => 9,
            GameMode::Tutorial => 10,
            GameMode::MidOnly => 11,
            GameMode::LeastPlayed => 12,
            GameMode::NewPlayerPool => 13,
            GameMode::CompendiumMatchmaking => 14,
            GameMode::CoopVsBots => 15,
            GameMode::CaptainsDraft => 16,
            GameMode::AbilityDraft => 18,
            GameMode::AllRandomDeathMatch => 20,
            GameMode::OneVsOneMid => 21,
            GameMode::RankedMatchmaking => 22,
            GameMode::Turbo => 23,
        }
    }

    /// The strict conversion from a wire code; a code outside the
    /// closed set yields nothing.
    pub fn from_code(value: i32) -> (r: Option<GameMode>)
        ensures
            r == GameMode::spec_from_code(value as int),
    {
        if value == 0 {
            Some(GameMode::Unknown)
        } else if value == 1 {
            Some(GameMode::AllPick)
        } else if value == 2 {
            Some(GameMode::CaptainMode)
        } else if value == 3 {
            Some(GameMode::RandomDraft)
        } else if value == 4 {
            Some(GameMode::SingleDraft)
        } else if value == 5 {
            Some(GameMode::AllRandom)
        } else if value == 6 {
            Some(GameMode::Intro)
        } else if value == 7 {
            Some(GameMode::Diretide)
        } else if value == 8 {
            Some(GameMode::ReverseCaptainMode)
        } else if value == 9 {
            Some(GameMode::Greeviling)
        } else if value == 10 {
            Some(GameMode::Tutorial)
        } else if value == 11 {
            Some(GameMode::MidOnly)
        } else if value == 12 {
            Some(GameMode::LeastPlayed)
        } else if value == 13 {
            Some(GameMode::NewPlayerPool)
        } else if value == 14 {
            Some(GameMode::CompendiumMatchmaking)
        } else if value == 15 {
            Some(GameMode::CoopVsBots)
        } else if value == 16 {
            Some(GameMode::CaptainsDraft)
        } else if value == 18 {
            Some(GameMode::AbilityDraft)
        } else if value == 20 {
            Some(GameMode::AllRandomDeathMatch)
        } else if value == 21 {
            Some(GameMode::OneVsOneMid)
        } else if value == 22 {
            Some(GameMode::RankedMatchmaking)
        } else if value == 23 {
            Some(GameMode::Turbo)
        } else {
            None
        }
    }

    /// The canonical display name of the game mode.
    pub fn name(self) -> (r: String)
        ensures
            r@ == self.spec_name(),
    {
        match self {
            GameMode::Unknown => "None".to_owned(),
            GameMode::AllPick => "AllPick".to_owned(),
            GameMode::CaptainMode => "CaptainMode".to_owned(),
            GameMode::RandomDraft => "RandomDraft".to_owned(),
            GameMode::SingleDraft => "SingleDraft".to_owned(),
            GameMode::AllRandom => "AllRandom".to_owned(),
            GameMode::Intro => "Intro".to_owned(),
            GameMode::Diretide => "Diretide".to_owned(),
            GameMode::ReverseCaptainMode => "ReverseCaptainMode".to_owned(),
            GameMode::Greeviling => "Greeviling".to_owned(),
            GameMode::Tutorial => "Tutorial".to_owned(),
            GameMode::MidOnly => "MidOnly".to_owned(),
            GameMode::LeastPlayed => "LeastPlayed".to_owned(),
            GameMode::NewPlayerPool => "NewPlayerPool".to_owned(),
            GameMode::CompendiumMatchmaking => "CompendiumMatchmaking".to_owned(),
            GameMode::CoopVsBots => "CoopVsBots".to_owned(),
            GameMode::CaptainsDraft => "CaptainsDraft".to_owned(),
            GameMode::AbilityDraft => "AbilityDraft".to_owned(),
            GameMode::AllRandomDeathMatch => "AllRandomDeathMatch".to_owned(),
            GameMode::OneVsOneMid => "OneVsOneMid".to_owned(),
            GameMode::RankedMatchmaking => "RankedMatchmaking".to_owned(),
            GameMode::Turbo => "Turbo".to_owned(),
        }
    }
}

/// Wire codes round-trip through the game-mode enumeration.
pub proof fn lemma_game_mode_round_trip(m: GameMode, value: int)
    ensures
        GameMode::spec_from_code(m.spec_code()) == Some(m),
        GameMode::spec_from_code(value) == Some(m) ==> m.spec_code() == value,
{
}

/// The leaver status of a player, a closed enumeration of wire codes.
#[derive(Clone, Copy, Debug, PartialEq, Eq, Structural)]
pub enum LeaverStatus {
    Stayed,
    Disconnected,
    DisconnectedTooLong,
    Abandoned,
    Afk,
    NeverConnected,
    NeverConnectedTooLong,
}

impl LeaverStatus {
    /// The wire code of the leaver status.
    pub open spec fn spec_code(self) -> int {
        match self {
            LeaverStatus::Stayed => 0,
            LeaverStatus::Disconnected => 1,
            LeaverStatus::DisconnectedTooLong => 2,
            LeaverStatus::Abandoned => 3,
            LeaverStatus::Afk => 4,
            LeaverStatus::NeverConnected => 5,
            LeaverStatus::NeverConnectedTooLong => 6,
        }
    }

    /// The leaver status of a wire code; none outside the closed set.
    pub open spec fn spec_from_code(value: int) -> Option<LeaverStatus> {
        if value == 0 {
            Some(LeaverStatus::Stayed)
        } else if value == 1 {
            Some(LeaverStatus::Disconnected)
        } else if value == 2 {
            Some(LeaverStatus::DisconnectedTooLong)
        } else if value == 3 {
            Some(LeaverStatus::Abandoned)
        } else if value == 4 {
            Some(LeaverStatus::Afk)
        } else if value == 5 {
            Some(LeaverStatus::NeverConnected)
        } else if value == 6 {
            Some(LeaverStatus::NeverConnectedTooLong)
        } else {
            None
        }
    }

    /// The display name of the leaver status.
    pub open spec fn spec_name(self) -> Seq<char> {
        match self {
            LeaverStatus::Stayed => "None"@,
            LeaverStatus::Disconnected => "Disconnected"@,
            LeaverStatus::DisconnectedTooLong => "DisconnectedTooLong"@,
            LeaverStatus::Abandoned => "Abandoned"@,
            LeaverStatus::Afk => "Afk"@,
            LeaverStatus::NeverConnected => "NeverConnected"@,
            LeaverStatus::NeverConnectedTooLong => "NeverConnectedTooLong"@,
        }
    }

    /// The wire code of the leaver status.
    pub fn code(self) -> (r: i32)
        ensures
            r as int == self.spec_code(),
    {
        match self {
            LeaverStatus::Stayed => 0,
            LeaverStatus::Disconnected => 1,
            LeaverStatus::DisconnectedTooLong => 2,
            LeaverStatus::Abandoned => 3,
            LeaverStatus::Afk => 4,
            LeaverStatus::NeverConnected => 5,
            LeaverStatus::NeverConnectedTooLong => 6,
        }
    }

    /// The strict conversion from a wire code; a code outside the
    /// closed set yields nothing.
    pub fn from_code(value: i32) -> (r: Option<LeaverStatus>)
        ensures
            r == LeaverStatus::spec_from_code(value as int),
    {
        if value == 0 {
            Some(LeaverStatus::Stayed)
        } else if value == 1 {
            Some(LeaverStatus::Disconnected)
        } else if value == 2 {
            Some(LeaverStatus::DisconnectedTooLong)
        } else if value == 3 {
            Some(LeaverStatus::Abandoned)
        } else if value == 4 {
            Some(LeaverStatus::Afk)
        } else if value == 5 {
            Some(LeaverStatus::NeverConnected)
        } else if value == 6 {
            Some(LeaverStatus::NeverConnectedTooLong)
        } else {
            None
        }
    }

    /// The display name of the leaver status.
    pub fn name(self) -> (r: String)
        ensures
            r@ == self.spec_name(),
    {
        match self {
            LeaverStatus::Stayed => "None".to_owned(),
            LeaverStatus::Disconnected => "Disconnected".to_owned(),
            LeaverStatus::DisconnectedTooLong => "DisconnectedTooLong".to_owned(),
            LeaverStatus::Abandoned => "Abandoned".to_owned(),
            LeaverStatus::Afk => "Afk".to_owned(),
            LeaverStatus::NeverConnected => "NeverConnected".to_owned(),
            LeaverStatus::NeverConnectedTooLong => "NeverConnectedTooLong".to_owned(),
        }
    }
}

/// Wire codes round-trip through the leaver-status enumeration.
pub proof fn lemma_leaver_status_round_trip(s: LeaverStatus, value: int)
    ensures
        LeaverStatus::spec_from_code(s.spec_code()) == Some(s),
        LeaverStatus::spec_from_code(value) == Some(s) ==> s.spec_code() == value,
{
}

// ---------------------------------------------------------------------------
// History response
// ---------------------------------------------------------------------------

/// A player entry of a match summary in the history response.
#[derive(Clone, Copy, Debug, PartialEq, Eq, Structural)]
pub struct Player {
    pub account_id: i64,
    pub player_slot: i32,
    pub hero_id: i32,
    pub hero_variant: i32,
}

/// One match summary of the history response, carrying the sequence
/// cursor that the detail lookup is keyed on.
#[derive(Clone, Debug, PartialEq)]
pub struct Match {
    pub match_id: i64,
    pub match_seq_num: i64,
    pub start_time: i64,
    pub lobby_type: i32,
    pub radiant_team_id: i32,
    pub dire_team_id: i32,
    pub players: Vec<Player>,
}

/// The payload of the history response.
#[derive(Clone, Debug, PartialEq)]
pub struct MatchHistoryResult {
    pub matches: Vec<Match>,
    pub status: i32,
    pub num_results: i32,
    pub total_results: i32,
    pub results_remaining: i32,
}

/// The history response of the remote match API.
#[derive(Clone, Debug, PartialEq)]
pub struct MatchHistoryResponse {
    pub result: MatchHistoryResult,
}

impl MatchHistoryResponse {
    /// The sequence cursors of the returned matches, in response order.
    pub fn match_seq_num(&self) -> (r: Vec<i64>)
        ensures
            r@.len() == self.result.matches@.len(),
            forall|i: int|
                0 <= i < r@.len() ==> r@[i] == self.result.matches@[i].match_seq_num,
    {
        let mut r: Vec<i64> = Vec::new();
        let n = self.result.matches.len();
        let mut i: usize = 0;
        while i < n
            invariant
                i <= n,
                n == self.result.matches@.len(),
                r@.len() == i,
                forall|j: int|
                    0 <= j < i ==> r@[j] == self.result.matches@[j].match_seq_num,
            decreases n - i,
        {
            r.push(self.result.matches[i].match_seq_num);
            i = i + 1;
        }
        r
    }
}

// ---------------------------------------------------------------------------
// Detail response
// ---------------------------------------------------------------------------

/// One player's raw record within a match detail.
#[derive(Clone, Copy, Debug, PartialEq, Eq, Structural)]
pub struct PlayerDetail {
    pub account_id: i64,
    pub player_slot: i32,
    pub hero_id: i32,
    pub hero_variant: i32,
    pub item_0: i32,
    pub item_1: i32,
    pub item_2: i32,
    pub item_3: i32,
    pub item_4: i32,
    pub item_5: i32,
    pub backpack_0: i32,
    pub backpack_1: i32,
    pub backpack_2: i32,
    pub item_neutral: i32,
    pub kills: i32,
    pub deaths: i32,
    pub assists: i32,
    pub leaver_status: LeaverStatus,
    pub last_hits: i32,
    pub denies: i32,
    pub gold_per_min: i32,
    pub xp_per_min: i32,
    pub level: i32,
    pub net_worth: i32,
    pub aghanims_scepter: i32,
    pub aghanims_shard: i32,
    pub moonshard: i32,
    pub hero_damage: i32,
    pub tower_damage: i32,
    pub hero_healing: i32,
    pub gold: i32,
    pub gold_spent: i32,
}

/// One raw match record of the detail response.
#[derive(Clone, Debug, PartialEq)]
pub struct MatchDetail {
    pub players: Vec<PlayerDetail>,
    pub radiant_win: bool,
    pub duration: i32,
    pub start_time: i64,
    pub match_id: i64,
    pub match_seq_num: i64,
    pub first_blood_time: i32,
    pub lobby_type: LobbyType,
    pub game_mode: GameMode,
    pub radiant_score: i32,
    pub dire_score: i32,
}

/// The payload of the detail response.
#[derive(Clone, Debug, PartialEq)]
pub struct MatchDetailResult {
    pub status: i32,
    pub matches: Vec<MatchDetail>,
}

/// The detail response of the remote match API.
#[derive(Clone, Debug, PartialEq)]
pub struct MatchDetailResponse {
    pub result: MatchDetailResult,
}

// ---------------------------------------------------------------------------
// Projection
// ---------------------------------------------------------------------------

/// Whether the player won: the recorded winning side combined with the
/// side that the player's slot places them on.  Slots below 128 are
/// the first (radiant) side, slots at or above 128 the second.
pub open spec fn spec_win(radiant_win: bool, player_slot: int) -> bool {
    radiant_win && player_slot < 128 || !radiant_win && player_slot >= 128
}

/// Win/loss law: a player wins exactly when the recorded winning side
/// equals the side derived from the player's slot.
pub proof fn lemma_win_computation(radiant_win: bool, player_slot: int)
    ensures
        spec_win(radiant_win, player_slot) == (radiant_win == (player_slot < 128)),
{
}

/// The first player record whose account id matches, if any.
pub open spec fn spec_found(players: Seq<PlayerDetail>, account_id: i64) -> Option<PlayerDetail>
    decreases players.len(),
{
    if players.len() == 0 {
        None
    } else if players[0].account_id == account_id {
        Some(players[0])
    } else {
        spec_found(players.drop_first(), account_id)
    }
}

proof fn lemma_found_unroll(players: Seq<PlayerDetail>, account_id: i64, i: int)
    requires
        0 <= i <= players.len(),
        forall|j: int| 0 <= j < i ==> players[j].account_id != account_id,
    ensures
        spec_found(players, account_id) == spec_found(players.skip(i), account_id),
    decreases i,
{
    if i > 0 {
        lemma_found_unroll(players, account_id, i - 1);
        assert(players.skip(i - 1).drop_first() =~= players.skip(i));
        assert(players.skip(i - 1)[0] == players[i - 1]);
    } else {
        assert(players.skip(0) =~= players);
    }
}

/// The per-player projection of one raw match record.
pub open spec fn spec_from_match_detail(match_detail: MatchDetail, account_id: i64) -> Result<
    MatchDetailView,
    Error,
> {
    match spec_found(match_detail.players@, account_id) {
        None => Err(Error::PlayerNotFound { account_id }),
        Some(p) => Ok(
            MatchDetailView {
                win: spec_win(match_detail.radiant_win, p.player_slot as int),
                duration: match_detail.duration,
                start_time: match_detail.start_time,
                game_mode: match_detail.game_mode,
                radiant_score: match_detail.radiant_score,
                dire_score: match_detail.dire_score,
                player_detail: p,
            },
        ),
    }
}

/// The projections of a list of raw match records, or the first
/// failure.
pub open spec fn spec_views(matches: Seq<MatchDetail>, account_id: i64) -> Result<
    Seq<MatchDetailView>,
    Error,
>
    decreases matches.len(),
{
    if matches.len() == 0 {
        Ok(Seq::<MatchDetailView>::empty())
    } else {
        match spec_from_match_detail(matches[0], account_id) {
            Err(e) => Err(e),
            Ok(v) => match spec_views(matches.drop_first(), account_id) {
                Err(e) => Err(e),
                Ok(rest) => Ok(seq![v] + rest),
            },
        }
    }
}

impl MatchDetailResponse {
    /// Projects every returned match for the given account; fails with
    /// the first missing-player error.
    pub fn views(self, account_id: i64) -> (r: Result<VecDeque<MatchDetailView>, Error>)
        ensures
            (match r {
                Ok(vs) => spec_views(self.result.matches@, account_id) == Ok::<
                    Seq<MatchDetailView>,
                    Error,
                >(vs@),
                Err(e) => spec_views(self.result.matches@, account_id) == Err::<
                    Seq<MatchDetailView>,
                    Error,
                >(e),
            }),
    {
        views_rec(self.result.matches, account_id)
    }
}

fn views_rec(matches: Vec<MatchDetail>, account_id: i64) -> (r: Result<
    VecDeque<MatchDetailView>,
    Error,
>)
    ensures
        (match r {
            Ok(vs) => spec_views(matches@, account_id) == Ok::<Seq<MatchDetailView>, Error>(vs@),
            Err(e) => spec_views(matches@, account_id) == Err::<Seq<MatchDetailView>, Error>(e),
        }),
    decreases matches@.len(),
{
    let mut rest = matches;
    if rest.len() == 0 {
        Ok(VecDeque::new())
    } else {
        let head = rest.remove(0);
        assert(rest@ =~= matches@.drop_first());
        match MatchDetailView::from_match_detail(head, account_id) {
            Err(e) => Err(e),
            Ok(v) => match views_rec(rest, account_id) {
                Err(e) => Err(e),
                Ok(mut views) => {
                    views.push_front(v);
                    proof {
                        let tail = spec_views(matches@.drop_first(), account_id);
                        assert(views@ =~= seq![v] + tail->Ok_0);
                    }
                    Ok(views)
                },
            },
        }
    }
}

// ---------------------------------------------------------------------------
// The view
// ---------------------------------------------------------------------------

/// The truncated-toward-zero quotient of a duration by sixty.
pub open spec fn spec_trunc_div60(d: int) -> int {
    if d >= 0 {
        d / 60
    } else {
        -((-d) / 60)
    }
}

/// The truncated-toward-zero remainder of a duration by sixty.
pub open spec fn spec_trunc_rem60(d: int) -> int {
    if d >= 0 {
        d % 60
    } else {
        -((-d) % 60)
    }
}

/// The rendered duration: minutes, `m`, leftover seconds, `s`.
pub open spec fn spec_duration_col(d: int) -> Seq<char> {
    spec_dec_int(spec_trunc_div60(d)) + seq!['m'] + spec_dec_int(spec_trunc_rem60(d)) + seq!['s']
}

/// One labelled line of the player-detail rendering.
pub open spec fn spec_field_line(label: Seq<char>, value: int) -> Seq<char> {
    "    "@ + label + ": "@ + spec_dec_int(value) + ",\n"@
}

/// The full player-detail rendering, one line per raw field.
pub open spec fn spec_player_detail_col(p: PlayerDetail) -> Seq<char> {
    "PlayerDetail {\n"@ + spec_field_line("account_id"@, p.account_id as int) + spec_field_line(
        "player_slot"@,
        p.player_slot as int,
    ) + spec_field_line("hero_id"@, p.hero_id as int) + spec_field_line(
        "hero_variant"@,
        p.hero_variant as int,
    ) + spec_field_line("item_0"@, p.item_0 as int) + spec_field_line("item_1"@, p.item_1 as int)
        + spec_field_line("item_2"@, p.item_2 as int) + spec_field_line(
        "item_3"@,
        p.item_3 as int,
    ) + spec_field_line("item_4"@, p.item_4 as int) + spec_field_line("item_5"@, p.item_5 as int)
        + spec_field_line("backpack_0"@, p.backpack_0 as int) + spec_field_line(
        "backpack_1"@,
        p.backpack_1 as int,
    ) + spec_field_line("backpack_2"@, p.backpack_2 as int) + spec_field_line(
        "item_neutral"@,
        p.item_neutral as int,
    ) + spec_field_line("kills"@, p.kills as int) + spec_field_line("deaths"@, p.deaths as int)
        + spec_field_line("assists"@, p.assists as int) + "    leaver_status: "@
        + p.leaver_status.spec_name() + ",\n"@ + spec_field_line(
        "last_hits"@,
        p.last_hits as int,
    ) + spec_field_line("denies"@, p.denies as int) + spec_field_line(
        "gold_per_min"@,
        p.gold_per_min as int,
    ) + spec_field_line("xp_per_min"@, p.xp_per_min as int) + spec_field_line(
        "level"@,
        p.level as int,
    ) + spec_field_line("net_worth"@, p.net_worth as int) + spec_field_line(
        "aghanims_scepter"@,
        p.aghanims_scepter as int,
    ) + spec_field_line("aghanims_shard"@, p.aghanims_shard as int) + spec_field_line(
        "moonshard"@,
        p.moonshard as int,
    ) + spec_field_line("hero_damage"@, p.hero_damage as int) + spec_field_line(
        "tower_damage"@,
        p.tower_damage as int,
    ) + spec_field_line("hero_healing"@, p.hero_healing as int) + spec_field_line(
        "gold"@,
        p.gold as int,
    ) + spec_field_line("gold_spent"@, p.gold_spent as int) + "}"@
}

fn push_field_line(out: &mut Vec<char>, label: &str, value: i64)
    ensures
        final(out)@ == old(out)@ + spec_field_line(label@, value as int),
{
    push_str_chars(out, "    ");
    push_str_chars(out, label);
    push_str_chars(out, ": ");
    push_dec_i64(out, value);
    push_str_chars(out, ",\n");
    assert(out@ =~= old(out)@ + spec_field_line(label@, value as int));
}

/// The derived, immutable projection of one raw match for one account.
#[derive(Clone, Copy, Debug, PartialEq, Eq, Structural)]
pub struct MatchDetailView {
    pub win: bool,
    pub duration: i32,
    pub start_time: i64,
    pub game_mode: GameMode,
    pub radiant_score: i32,
    pub dire_score: i32,
    pub player_detail: PlayerDetail,
}

impl MatchDetailView {
    /// Projects one raw match record for the given account: finds the
    /// account's player record, derives the win flag from the player's
    /// slot and the recorded winner, and copies the display fields.
    pub fn from_match_detail(match_detail: MatchDetail, account_id: i64) -> (r: Result<
        MatchDetailView,
        Error,
    >)
        ensures
            r == spec_from_match_detail(match_detail, account_id),
    {
        let n = match_detail.players.len();
        let mut i: usize = 0;
        while i < n
            invariant
                i <= n,
                n == match_detail.players@.len(),
                forall|j: int| 0 <= j < i ==> match_detail.players@[j].account_id != account_id,
            decreases n - i,
        {
            if match_detail.players[i].account_id == account_id {
                proof {
                    lemma_found_unroll(match_detail.players@, account_id, i as int);
                    assert(match_detail.players@.skip(i as int)[0] == match_detail.players@[
                        i as int
                    ]);
                }
                let p = match_detail.players[i];
                let win = match_detail.radiant_win && p.player_slot < 128 || !match_detail.radiant_win
                    && p.player_slot >= 128;
                return Ok(
                    MatchDetailView {
                        win,
                        duration: match_detail.duration,
                        start_time: match_detail.start_time,
                        game_mode: match_detail.game_mode,
                        radiant_score: match_detail.radiant_score,
                        dire_score: match_detail.dire_score,
                        player_detail: p,
                    },
                );
            }
            i = i + 1;
        }
        proof {
            lemma_found_unroll(match_detail.players@, account_id, n as int);
            assert(match_detail.players@.skip(n as int) =~= Seq::<PlayerDetail>::empty());
        }
        Err(Error::PlayerNotFound { account_id })
    }

    /// The win/lose label of the view.
    pub fn win_col(&self) -> (r: String)
        ensures
            r@ == (if self.win {
                "Win"@
            } else {
                "Lose"@
            }),
    {
        if self.win {
            "Win".to_owned()
        } else {
            "Lose".to_owned()
        }
    }

    /// The rendered duration, minutes and leftover seconds.
    pub fn duration_col(&self) -> (r: String)
        ensures
            r@ == spec_duration_col(self.duration as int),
    {
        let d = self.duration;
        let mins: i64;
        let secs: i64;
        if d >= 0 {
            mins = ((d as u64) / 60) as i64;
            secs = ((d as u64) % 60) as i64;
        } else {
            let mag = (-(d as i64)) as u64;
            mins = -((mag / 60) as i64);
            secs = -((mag % 60) as i64);
        }
        assert(mins == spec_trunc_div60(d as int));
        assert(secs == spec_trunc_rem60(d as int));
        let mut out: Vec<char> = Vec::new();
        push_dec_i64(&mut out, mins);
        push_one(&mut out, 'm');
        push_dec_i64(&mut out, secs);
        push_one(&mut out, 's');
        assert(out@ =~= spec_duration_col(d as int));
        string_of_chars(&out)
    }

    /// The canonical name of the match's game mode.
    pub fn game_mode_col(&self) -> (r: String)
        ensures
            r@ == self.game_mode.spec_name(),
    {
        self.game_mode.name()
    }

    /// The full rendering of the player's raw record.
    pub fn player_detail_col(&self) -> (r: String)
        ensures
            r@ == spec_player_detail_col(self.player_detail),
    {
        let p = self.player_detail;
        let mut out: Vec<char> = Vec::new();
        push_str_chars(&mut out, "PlayerDetail {\n");
        push_field_line(&mut out, "account_id", p.account_id);
        push_field_line(&mut out, "player_slot", p.player_slot as i64);
        push_field_line(&mut out, "hero_id", p.hero_id as i64);
        push_field_line(&mut out, "hero_variant", p.hero_variant as i64);
        push_field_line(&mut out, "item_0", p.item_0 as i64);
        push_field_line(&mut out, "item_1", p.item_1 as i64);
        push_field_line(&mut out, "item_2", p.item_2 as i64);
        push_field_line(&mut out, "item_3", p.item_3 as i64);
        push_field_line(&mut out, "item_4", p.item_4 as i64);
        push_field_line(&mut out, "item_5", p.item_5 as i64);
        push_field_line(&mut out, "backpack_0", p.backpack_0 as i64);
        push_field_line(&mut out, "backpack_1", p.backpack_1 as i64);
        push_field_line(&mut out, "backpack_2", p.backpack_2 as i64);
        push_field_line(&mut out, "item_neutral", p.item_neutral as i64);
        push_field_line(&mut out, "kills", p.kills as i64);
        push_field_line(&mut out, "deaths", p.deaths as i64);
        push_field_line(&mut out, "assists", p.assists as i64);
        push_str_chars(&mut out, "    leaver_status: ");
        let leaver = p.leaver_status.name();
        push_str_chars(&mut out, leaver.as_str());
        push_str_chars(&mut out, ",\n");
        push_field_line(&mut out, "last_hits", p.last_hits as i64);
        push_field_line(&mut out, "denies", p.denies as i64);
        push_field_line(&mut out, "gold_per_min", p.gold_per_min as i64);
        push_field_line(&mut out, "xp_per_min", p.xp_per_min as i64);
        push_field_line(&mut out, "level", p.level as i64);
        push_field_line(&mut out, "net_worth", p.net_worth as i64);
        push_field_line(&mut out, "aghanims_scepter", p.aghanims_scepter as i64);
        push_field_line(&mut out, "aghanims_shard", p.aghanims_shard as i64);
        push_field_line(&mut out, "moonshard", p.moonshard as i64);
        push_field_line(&mut out, "hero_damage", p.hero_damage as i64);
        push_field_line(&mut out, "tower_damage", p.tower_damage as i64);
        push_field_line(&mut out, "hero_healing", p.hero_healing as i64);
        push_field_line(&mut out, "gold", p.gold as i64);
        push_field_line(&mut out, "gold_spent", p.gold_spent as i64);
        push_str_chars(&mut out, "}");
        assert(out@ =~= spec_player_detail_col(p));
        string_of_chars(&out)
    }

    /// The player's raw record within the view.
    pub fn player_detail(&self) -> (r: PlayerDetail)
        ensures
            r == self.player_detail,
    {
        self.player_detail
    }
}

} // verus!
