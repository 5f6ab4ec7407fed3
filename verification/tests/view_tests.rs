use watchingir::calendar::{format_calendar, local_calendar, CalendarTime};
use watchingir::error::Error;
use watchingir::matches::{GameMode, LeaverStatus, LobbyType, MatchDetail, MatchDetailResponse,
    MatchDetailResult, MatchDetailView, MatchHistoryResponse, MatchHistoryResult, PlayerDetail};

fn player(account_id: i64, player_slot: i32) -> PlayerDetail {
    PlayerDetail {
        account_id,
        player_slot,
        hero_id: 14,
        hero_variant: 2,
        item_0: 1,
        item_1: 2,
        item_2: 3,
        item_3: 4,
        item_4: 5,
        item_5: 6,
        backpack_0: 7,
        backpack_1: 8,
        backpack_2: 9,
        item_neutral: 10,
        kills: 11,
        deaths: 3,
        assists: 20,
        leaver_status: LeaverStatus::Stayed,
        last_hits: 250,
        denies: 15,
        gold_per_min: 600,
        xp_per_min: 700,
        level: 25,
        net_worth: 24000,
        aghanims_scepter: 1,
        aghanims_shard: 0,
        moonshard: 0,
        hero_damage: 30000,
        tower_damage: 5000,
        hero_healing: 0,
        gold: 2000,
        gold_spent: 22000,
    }
}

fn detail(players: Vec<PlayerDetail>, radiant_win: bool, duration: i32) -> MatchDetail {
    MatchDetail {
        players,
        radiant_win,
        duration,
        start_time: 1_431_648_000,
        match_id: 1,
        match_seq_num: 2,
        first_blood_time: 30,
        lobby_type: LobbyType::Ranked,
        game_mode: GameMode::AllPick,
        radiant_score: 30,
        dire_score: 20,
    }
}

fn view_of(radiant_win: bool, slot: i32, duration: i32) -> MatchDetailView {
    MatchDetailView::from_match_detail(detail(vec![player(7, slot)], radiant_win, duration), 7)
        .expect("player present")
}

#[test]
fn win_is_side_crossed_with_winner() {
    assert_eq!(view_of(true, 50, 0).win_col(), "Win");
    assert_eq!(view_of(true, 200, 0).win_col(), "Lose");
    assert_eq!(view_of(false, 50, 0).win_col(), "Lose");
    assert_eq!(view_of(false, 200, 0).win_col(), "Win");
}

#[test]
fn win_boundary_slots() {
    assert_eq!(view_of(true, 127, 0).win_col(), "Win");
    assert_eq!(view_of(true, 128, 0).win_col(), "Lose");
    assert_eq!(view_of(false, 127, 0).win_col(), "Lose");
    assert_eq!(view_of(false, 128, 0).win_col(), "Win");
}

#[test]
fn duration_renders_minutes_and_seconds() {
    assert_eq!(view_of(true, 0, 125).duration_col(), "2m5s");
    assert_eq!(view_of(true, 0, 0).duration_col(), "0m0s");
    assert_eq!(view_of(true, 0, 3599).duration_col(), "59m59s");
}

#[test]
fn negative_durations_truncate_toward_zero() {
    assert_eq!(view_of(true, 0, -125).duration_col(), "-2m-5s");
    assert_eq!(view_of(true, 0, -60).duration_col(), "-1m0s");
    assert_eq!(view_of(true, 0, -5).duration_col(), "0m-5s");
}

#[test]
fn projection_fails_without_the_player() {
    let absent = MatchDetailView::from_match_detail(detail(vec![player(8, 1)], true, 100), 7);
    assert_eq!(absent, Err(Error::PlayerNotFound { account_id: 7 }));

    let empty = MatchDetailView::from_match_detail(detail(Vec::new(), true, 100), 7);
    assert_eq!(empty, Err(Error::PlayerNotFound { account_id: 7 }));
}

#[test]
fn projection_takes_the_first_matching_player() {
    let first = player(7, 10);
    let second = player(7, 200);
    let view = MatchDetailView::from_match_detail(detail(vec![first, second], true, 9), 7)
        .expect("player present");
    assert_eq!(view.player_detail(), first);
}

#[test]
fn views_project_every_match() {
    let response = MatchDetailResponse {
        result: MatchDetailResult {
            status: 1,
            matches: vec![
                detail(vec![player(7, 1)], true, 60),
                detail(vec![player(7, 130)], true, 61),
            ],
        },
    };
    let views = response.views(7).expect("both matches hold the player");
    assert_eq!(views.len(), 2);
    assert_eq!(views[0].win_col(), "Win");
    assert_eq!(views[1].win_col(), "Lose");
}

#[test]
fn views_fail_on_the_first_missing_player() {
    let response = MatchDetailResponse {
        result: MatchDetailResult {
            status: 1,
            matches: vec![
                detail(vec![player(7, 1)], true, 60),
                detail(vec![player(8, 1)], true, 61),
            ],
        },
    };
    assert_eq!(response.views(7), Err(Error::PlayerNotFound { account_id: 7 }));
}

#[test]
fn match_seq_num_lists_cursors_in_order() {
    let response = MatchHistoryResponse {
        result: MatchHistoryResult {
            matches: vec![
                watchingir::matches::Match {
                    match_id: 1,
                    match_seq_num: 11,
                    start_time: 0,
                    lobby_type: 0,
                    radiant_team_id: 0,
                    dire_team_id: 0,
                    players: Vec::new(),
                },
                watchingir::matches::Match {
                    match_id: 2,
                    match_seq_num: 22,
                    start_time: 0,
                    lobby_type: 0,
                    radiant_team_id: 0,
                    dire_team_id: 0,
                    players: Vec::new(),
                },
            ],
            status: 1,
            num_results: 2,
            total_results: 2,
            results_remaining: 0,
        },
    };
    assert_eq!(response.match_seq_num(), vec![11, 22]);
}

#[test]
fn game_mode_names() {
    assert_eq!(view_of(true, 0, 0).game_mode_col(), "AllPick");
    assert_eq!(GameMode::Unknown.name(), "None");
    assert_eq!(GameMode::Turbo.name(), "Turbo");
    assert_eq!(LeaverStatus::Stayed.name(), "None");
    assert_eq!(LeaverStatus::Abandoned.name(), "Abandoned");
}

#[test]
fn wire_codes_round_trip_strictly() {
    for code in -2..30_i32 {
        match GameMode::from_code(code) {
            Some(mode) => assert_eq!(mode.code(), code),
            None => assert!(code < 0 || code == 17 || code == 19 || code > 23),
        }
        match LobbyType::from_code(code) {
            Some(lobby) => assert_eq!(lobby.code(), code),
            None => assert!(code < -1 || code > 8),
        }
        match LeaverStatus::from_code(code) {
            Some(status) => assert_eq!(status.code(), code),
            None => assert!(code < 0 || code > 6),
        }
    }
    assert!(GameMode::from_code(17).is_none());
    assert!(GameMode::from_code(24).is_none());
    assert!(LobbyType::from_code(9).is_none());
    assert!(LeaverStatus::from_code(7).is_none());
    assert_eq!(GameMode::from_code(23), Some(GameMode::Turbo));
    assert_eq!(LobbyType::from_code(-1), Some(LobbyType::Invalid));
}

#[test]
fn player_detail_col_lists_the_raw_fields() {
    let text = view_of(true, 3, 0).player_detail_col();
    assert!(text.starts_with("PlayerDetail {\n"));
    assert!(text.ends_with("}"));
    assert!(text.contains("    account_id: 7,\n"));
    assert!(text.contains("    player_slot: 3,\n"));
    assert!(text.contains("    leaver_status: None,\n"));
    assert!(text.contains("    net_worth: 24000,\n"));
    assert!(text.contains("    gold_spent: 22000,\n"));
}

#[test]
fn calendar_renders_zero_padded() {
    let t = CalendarTime { year: 2015, month: 5, day: 15, hour: 0, minute: 0, second: 0 };
    assert_eq!(format_calendar(t), "2015/05/15 00:00:00");
    let early = CalendarTime { year: 33, month: 12, day: 1, hour: 23, minute: 59, second: 9 };
    assert_eq!(format_calendar(early), "0033/12/01 23:59:09");
    let bce = CalendarTime { year: -1, month: 1, day: 2, hour: 3, minute: 4, second: 5 };
    assert_eq!(format_calendar(bce), "-0001/01/02 03:04:05");
}

#[test]
fn start_time_renders_a_local_timestamp() {
    let view = view_of(true, 0, 0);
    let text = view.start_time_col();
    let chars: Vec<char> = text.chars().collect();
    assert_eq!(chars.len(), 19);
    assert_eq!(chars[4], '/');
    assert_eq!(chars[7], '/');
    assert_eq!(chars[10], ' ');
    assert_eq!(chars[13], ':');
    assert_eq!(chars[16], ':');
}

#[test]
fn out_of_range_timestamp_is_unknown() {
    assert!(local_calendar(i64::MAX).is_none());
    assert!(local_calendar(i64::MIN).is_none());
    let t = local_calendar(1_431_648_000).expect("in range");
    assert!(1 <= t.month && t.month <= 12);
    assert!(1 <= t.day && t.day <= 31);
    assert!(t.hour < 24 && t.minute < 60 && t.second < 60);

    let mut detail = detail(vec![player(7, 0)], true, 0);
    detail.start_time = i64::MAX;
    let view = MatchDetailView::from_match_detail(detail, 7).expect("player present");
    assert_eq!(view.start_time_col(), "Unknown");
}

#[test]
fn calendar_range_edges() {
    const FIRST: i64 = -8_334_601_228_800;
    const LAST: i64 = 8_210_266_876_799;
    assert!(local_calendar(FIRST).is_some());
    assert!(local_calendar(FIRST - 1).is_none());
    assert!(local_calendar(LAST).is_some());
    assert!(local_calendar(LAST + 1).is_none());

    let mut in_range = detail(vec![player(7, 0)], true, 0);
    in_range.start_time = LAST;
    let view = MatchDetailView::from_match_detail(in_range, 7).expect("player present");
    assert_ne!(view.start_time_col(), "Unknown");
}
