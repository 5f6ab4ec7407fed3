use std::collections::VecDeque;
use watchingir::matches::{GameMode, LobbyType, MatchDetail, MatchDetailView};
use watchingir::panel::{LeftPanel, MainPanel, MatchDetailTable, Menu, SteamApiKeyModal, Task};
use watchingir::setting::{AppState, Setting};

fn empty_detail() -> MatchDetail {
    MatchDetail {
        players: Vec::new(),
        radiant_win: true,
        duration: 0,
        start_time: 0,
        match_id: 0,
        match_seq_num: 0,
        first_blood_time: 0,
        lobby_type: LobbyType::PublicMatchmaking,
        game_mode: GameMode::AllPick,
        radiant_score: 0,
        dire_score: 0,
    }
}

fn some_view() -> MatchDetailView {
    let mut detail = empty_detail();
    detail.players.push(watchingir::matches::PlayerDetail {
        account_id: 7,
        player_slot: 0,
        hero_id: 0,
        hero_variant: 0,
        item_0: 0,
        item_1: 0,
        item_2: 0,
        item_3: 0,
        item_4: 0,
        item_5: 0,
        backpack_0: 0,
        backpack_1: 0,
        backpack_2: 0,
        item_neutral: 0,
        kills: 0,
        deaths: 0,
        assists: 0,
        leaver_status: watchingir::matches::LeaverStatus::Stayed,
        last_hits: 0,
        denies: 0,
        gold_per_min: 0,
        xp_per_min: 0,
        level: 0,
        net_worth: 0,
        aghanims_scepter: 0,
        aghanims_shard: 0,
        moonshard: 0,
        hero_damage: 0,
        tower_damage: 0,
        hero_healing: 0,
        gold: 0,
        gold_spent: 0,
    });
    MatchDetailView::from_match_detail(detail, 7).expect("player present")
}

#[test]
fn menu_entries_exclude_each_other() {
    let mut menu = Menu::init();
    assert!(menu.latest_matches);
    assert!(!menu.friends);

    menu.friends = true;
    menu.select_latest_matches();
    assert!(!menu.friends);

    menu.latest_matches = true;
    menu.select_friends();
    assert!(!menu.latest_matches);
}

#[test]
fn left_panel_starts_on_the_match_list() {
    let panel = LeftPanel::new();
    assert!(panel.menu.latest_matches);
    assert!(!panel.menu.friends);
}

#[test]
fn main_panel_keeps_selection_across_updates() {
    let mut panel = MainPanel::new();
    assert!(panel.matches.is_empty());
    assert!(panel.selected_index.is_none());

    let mut views = VecDeque::new();
    views.push_back(some_view());
    panel.update_match_detail(views);
    assert_eq!(panel.matches.len(), 1);
    assert!(panel.selected_index.is_none());

    panel.select_row(0);
    assert_eq!(panel.selected_index, Some(0));

    let mut more = VecDeque::new();
    more.push_back(some_view());
    more.push_back(some_view());
    panel.update_match_detail(more);
    assert_eq!(panel.matches.len(), 2);
    assert_eq!(panel.selected_index, Some(0));
}

#[test]
fn refresh_click_asks_for_an_update() {
    let panel = MainPanel::new();
    assert_eq!(panel.trigger_update_match_detail(), Task::UpdateMatchDetail);
}

#[test]
fn raw_table_starts_empty() {
    let table = MatchDetailTable::new();
    assert!(table.matches.is_empty());
}

#[test]
fn key_modal_completes_on_submit() {
    let mut modal = SteamApiKeyModal::default();
    assert!(!modal.completed);
    assert!(modal.key.is_empty());
    modal.key = "some-entered-key".to_string();
    modal.submit();
    assert!(modal.completed);
    assert_eq!(modal.key, "some-entered-key");
}

#[test]
fn settings_default_to_empty() {
    let setting = Setting::default();
    assert!(setting.steam_api_key.is_empty());

    let state = AppState::default();
    assert!(state.steam_api_key.is_empty());
    assert!(state.stratz_api_key.is_empty());
    assert!(state.friends.is_empty());
    assert!(!state.has_keys());
}

#[test]
fn has_keys_needs_both_credentials() {
    let mut state = AppState::default();
    state.steam_api_key = "a".to_string();
    assert!(!state.has_keys());
    state.stratz_api_key = "b".to_string();
    assert!(state.has_keys());
}
