use watchingir::courier::{collect_batch, match_detail_url, match_history_url, metadata_api_url,
    FetchOutcome, MatchFetch};
use watchingir::error::{Endpoint, Error, MissingData, ResponseShape};
use watchingir::matches::{Match, MatchDetail, MatchDetailResponse, MatchDetailResult,
    MatchHistoryResponse, MatchHistoryResult};

fn history_with(matches: Vec<Match>) -> MatchHistoryResponse {
    MatchHistoryResponse {
        result: MatchHistoryResult {
            matches,
            status: 1,
            num_results: 1,
            total_results: 500,
            results_remaining: 499,
        },
    }
}

fn summary(match_seq_num: i64) -> Match {
    Match {
        match_id: 700,
        match_seq_num,
        start_time: 1_700_000_000,
        lobby_type: 7,
        radiant_team_id: 0,
        dire_team_id: 0,
        players: Vec::new(),
    }
}

fn detail_response() -> MatchDetailResponse {
    MatchDetailResponse {
        result: MatchDetailResult { status: 1, matches: Vec::new() },
    }
}

#[test]
fn two_hop_uses_first_cursor() {
    let fetch = MatchFetch::start(42);
    assert_eq!(fetch, MatchFetch::AwaitingHistory { account_id: 42 });
    let history = history_with(vec![summary(123456), summary(999999)]);
    let next = fetch.on_history(FetchOutcome::Success(history));
    assert_eq!(next, MatchFetch::AwaitingDetail { account_id: 42, cursor: 123456 });
}

#[test]
fn detail_url_carries_exactly_the_cursor() {
    let fetch = MatchFetch::start(42);
    let history = history_with(vec![summary(123456)]);
    let next = fetch.on_history(FetchOutcome::Success(history));
    let url = next.request_url("KEY", 1);
    assert_eq!(
        url,
        "https://api.steampowered.com/IDOTA2Match_570/GetMatchHistoryBySequenceNum/v1\
         ?key=KEY&start_at_match_seq_num=123456&matches_requested=1"
    );
}

#[test]
fn history_url_shape() {
    let url = match_history_url("KEY", -7, 1);
    assert_eq!(
        url,
        "https://api.steampowered.com/IDOTA2Match_570/GetMatchHistory/v1\
         ?key=KEY&account_id=-7&matches_requested=1"
    );
    let url2 = match_detail_url("K", 0, 25);
    assert_eq!(
        url2,
        "https://api.steampowered.com/IDOTA2Match_570/GetMatchHistoryBySequenceNum/v1\
         ?key=K&start_at_match_seq_num=0&matches_requested=25"
    );
    assert_eq!(metadata_api_url(), "https://api.stratz.com/graphql");
}

#[test]
fn empty_history_is_no_data_found() {
    let fetch = MatchFetch::start(42);
    let history = history_with(Vec::new());
    let next = fetch.on_history(FetchOutcome::Success(history));
    assert_eq!(
        next,
        MatchFetch::Failed { error: Error::NoDataFound { what: MissingData::SequenceCursor } }
    );
}

#[test]
fn history_transport_failure_is_typed() {
    let next = MatchFetch::start(1).on_history(FetchOutcome::TransportFailure);
    assert_eq!(
        next,
        MatchFetch::Failed { error: Error::RemoteCallFailed { endpoint: Endpoint::History } }
    );
}

#[test]
fn history_decode_failure_is_typed() {
    let next = MatchFetch::start(1).on_history(FetchOutcome::DecodeFailure);
    assert_eq!(
        next,
        MatchFetch::Failed { error: Error::MalformedResponse { shape: ResponseShape::MatchHistory } }
    );
}

#[test]
fn detail_hop_outcomes() {
    let history = history_with(vec![summary(5)]);
    let pending = MatchFetch::start(9).on_history(FetchOutcome::Success(history));

    let done = pending.clone().on_detail(FetchOutcome::Success(detail_response()));
    assert_eq!(done, MatchFetch::Complete { response: detail_response() });

    let transport = pending.clone().on_detail(FetchOutcome::TransportFailure);
    assert_eq!(
        transport,
        MatchFetch::Failed { error: Error::RemoteCallFailed { endpoint: Endpoint::Detail } }
    );

    let decode = pending.on_detail(FetchOutcome::DecodeFailure);
    assert_eq!(
        decode,
        MatchFetch::Failed { error: Error::MalformedResponse { shape: ResponseShape::MatchDetail } }
    );
}

#[test]
fn batch_fails_fast_on_third_of_five() {
    let failure = Error::RemoteCallFailed { endpoint: Endpoint::History };
    let outcomes = vec![
        (1_i64, Ok(detail_response())),
        (2, Ok(detail_response())),
        (3, Err(failure)),
        (4, Ok(detail_response())),
        (5, Ok(detail_response())),
    ];
    let collected = collect_batch(outcomes);
    assert_eq!(collected, Err(failure));
}

#[test]
fn batch_of_all_successes_keeps_order() {
    let outcomes = vec![
        (10_i64, Ok(detail_response())),
        (20, Ok(detail_response())),
        (30, Ok(detail_response())),
    ];
    let collected = collect_batch(outcomes).expect("all succeeded");
    let accounts: Vec<i64> = collected.iter().map(|p| p.1).collect();
    assert_eq!(accounts, vec![10, 20, 30]);
}

#[test]
fn batch_of_none_is_empty() {
    let collected = collect_batch(Vec::new()).expect("nothing to fetch");
    assert!(collected.is_empty());
}

#[test]
fn error_messages_name_the_failure() {
    assert_eq!(
        Error::RemoteCallFailed { endpoint: Endpoint::ReferenceData }.message(),
        "RemoteCallFailed: error when requesting the reference-data endpoint"
    );
    assert_eq!(
        Error::MalformedResponse { shape: ResponseShape::Constant }.message(),
        "MalformedResponse: invalid data format when trying to parse response to ConstantResponse"
    );
    assert_eq!(
        Error::NoDataFound { what: MissingData::SequenceCursor }.message(),
        "NoDataFound: expected sequence cursor but found None"
    );
    assert_eq!(
        Error::PlayerNotFound { account_id: -12 }.message(),
        "PlayerNotFound: account -12 is not among the match's players"
    );
    assert_eq!(Endpoint::History.label(), "history");
    assert_eq!(Endpoint::Detail.label(), "detail");
    assert_eq!(ResponseShape::MatchHistory.label(), "MatchHistory");
    assert_eq!(MissingData::SequenceCursor.label(), "sequence cursor");
}
