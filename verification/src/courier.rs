//! The decision core of the remote lookups.
//!
//! The surrounding application owns the transport: it issues an HTTP
//! call for whatever a [`MatchFetch`] state asks for and hands the
//! outcome back.  Every decision — which cursor keys the detail hop,
//! how each failure is typed, when a batch fails — is made here, under
//! contract.

use vstd::prelude::*;
use vstd::pervasive::unreached;
use crate::constant::ConstantResponse;
use crate::error::{Endpoint, Error, MissingData, ResponseShape};
use crate::matches::{MatchDetailResponse, MatchHistoryResponse};
use crate::text::{push_dec_i64, push_str_chars, spec_dec_int, string_of_chars};

verus! {

/// The base of the remote match API.
pub open spec fn spec_match_api_base() -> Seq<char> {
    "https://api.steampowered.com/IDOTA2Match_570"@
}

/// The address of the metadata API.
pub open spec fn spec_metadata_api_url() -> Seq<char> {
    "https://api.stratz.com/graphql"@
}

/// The history lookup address for an account: the base, the endpoint
/// path, the key, the account and the requested match count.
pub open spec fn spec_match_history_url(key: Seq<char>, account_id: int, matches_requested: int) -> Seq<char> {
    spec_match_api_base() + "/GetMatchHistory/v1?key="@ + key + "&account_id="@ + spec_dec_int(
        account_id,
    ) + "&matches_requested="@ + spec_dec_int(matches_requested)
}

/// The detail lookup address for a sequence cursor.  The detail hop is
/// keyed on the cursor, not on a match id: the by-id endpoint is known
/// to be broken upstream, so the by-sequence endpoint stands in.
pub open spec fn spec_match_detail_url(key: Seq<char>, cursor: int, matches_requested: int) -> Seq<char> {
    spec_match_api_base() + "/GetMatchHistoryBySequenceNum/v1?key="@
        + key + "&start_at_match_seq_num="@ + spec_dec_int(cursor) + "&matches_requested="@
        + spec_dec_int(matches_requested)
}

/// Builds the history lookup address.
pub fn match_history_url(key: &str, account_id: i64, matches_requested: i32) -> (r: String)
    ensures
        r@ == spec_match_history_url(key@, account_id as int, matches_requested as int),
{
    let mut out: Vec<char> = Vec::new();
    push_str_chars(&mut out, "https://api.steampowered.com/IDOTA2Match_570");
    push_str_chars(&mut out, "/GetMatchHistory/v1?key=");
    push_str_chars(&mut out, key);
    push_str_chars(&mut out, "&account_id=");
    push_dec_i64(&mut out, account_id);
    push_str_chars(&mut out, "&matches_requested=");
    push_dec_i64(&mut out, matches_requested as i64);
    assert(out@ =~= spec_match_history_url(key@, account_id as int, matches_requested as int));
    string_of_chars(&out)
}

/// Builds the detail lookup address.
pub fn match_detail_url(key: &str, cursor: i64, matches_requested: i32) -> (r: String)
    ensures
        r@ == spec_match_detail_url(key@, cursor as int, matches_requested as int),
{
    let mut out: Vec<char> = Vec::new();
    push_str_chars(&mut out, "https://api.steampowered.com/IDOTA2Match_570");
    push_str_chars(&mut out, "/GetMatchHistoryBySequenceNum/v1?key=");
    push_str_chars(&mut out, key);
    push_str_chars(&mut out, "&start_at_match_seq_num=");
    push_dec_i64(&mut out, cursor);
    push_str_chars(&mut out, "&matches_requested=");
    push_dec_i64(&mut out, matches_requested as i64);
    assert(out@ =~= spec_match_detail_url(key@, cursor as int, matches_requested as int));
    string_of_chars(&out)
}

/// The address of the metadata API.
pub fn metadata_api_url() -> (r: String)
    ensures
        r@ == spec_metadata_api_url(),
{
    "https://api.stratz.com/graphql".to_owned()
}

/// What the transport handed back for one remote call: a decoded
/// body, a transport failure, or a body that failed to decode.
#[derive(Clone, Debug, PartialEq)]
pub enum FetchOutcome<T> {
    Success(T),
    TransportFailure,
    DecodeFailure,
}

/// The state of one account's two-hop match lookup.  The detail hop
/// cannot be reached except through a history response that carried a
/// cursor.
#[derive(Clone, Debug, PartialEq)]
pub enum MatchFetch {
    /// The history call for the account is owed.
    AwaitingHistory { account_id: i64 },
    /// The history call returned a cursor; the detail call keyed on it
    /// is owed.
    AwaitingDetail { account_id: i64, cursor: i64 },
    /// The detail response, returned unmodified.
    Complete { response: MatchDetailResponse },
    /// The lookup failed; no further call is owed.
    Failed { error: Error },
}

impl MatchFetch {
    /// The state after the history hop: a transport or decode failure
    /// is typed, an empty match list is the expected no-data outcome,
    /// and a non-empty one advances to the detail hop keyed on exactly
    /// the first match's sequence cursor.
    pub open spec fn spec_after_history(account_id: i64, outcome: FetchOutcome<MatchHistoryResponse>) -> MatchFetch {
        match outcome {
            FetchOutcome::TransportFailure => MatchFetch::Failed {
                error: Error::RemoteCallFailed { endpoint: Endpoint::History },
            },
            FetchOutcome::DecodeFailure => MatchFetch::Failed {
                error: Error::MalformedResponse { shape: ResponseShape::MatchHistory },
            },
            FetchOutcome::Success(h) => {
                if h.result.matches@.len() == 0 {
                    MatchFetch::Failed {
                        error: Error::NoDataFound { what: MissingData::SequenceCursor },
                    }
                } else {
                    MatchFetch::AwaitingDetail {
                        account_id,
                        cursor: h.result.matches@[0].match_seq_num,
                    }
                }
            },
        }
    }

    /// The state after the detail hop: the decoded response complete
    /// and unmodified, or the typed failure.
    pub open spec fn spec_after_detail(outcome: FetchOutcome<MatchDetailResponse>) -> MatchFetch {
        match outcome {
            FetchOutcome::TransportFailure => MatchFetch::Failed {
                error: Error::RemoteCallFailed { endpoint: Endpoint::Detail },
            },
            FetchOutcome::DecodeFailure => MatchFetch::Failed {
                error: Error::MalformedResponse { shape: ResponseShape::MatchDetail },
            },
            FetchOutcome::Success(d) => MatchFetch::Complete { response: d },
        }
    }

    /// Starts the lookup for an account at the history hop.
    pub fn start(account_id: i64) -> (r: MatchFetch)
        ensures
            r == (MatchFetch::AwaitingHistory { account_id }),
    {
        MatchFetch::AwaitingHistory { account_id }
    }

    /// The address of the call that the state asks for.
    pub fn request_url(&self, key: &str, matches_requested: i32) -> (r: String)
        requires
            self is AwaitingHistory || self is AwaitingDetail,
        ensures
            (match *self {
                MatchFetch::AwaitingHistory { account_id } => r@ == spec_match_history_url(
                    key@,
                    account_id as int,
                    matches_requested as int,
                ),
                MatchFetch::AwaitingDetail { cursor, .. } => r@ == spec_match_detail_url(
                    key@,
                    cursor as int,
                    matches_requested as int,
                ),
                _ => false,
            }),
    {
        match self {
            MatchFetch::AwaitingHistory { account_id } => match_history_url(
                key,
                *account_id,
                matches_requested,
            ),
            MatchFetch::AwaitingDetail { cursor, .. } => match_detail_url(
                key,
                *cursor,
                matches_requested,
            ),
            _ => unreached(),
        }
    }

    /// Advances past the history hop.
    pub fn on_history(self, outcome: FetchOutcome<MatchHistoryResponse>) -> (r: MatchFetch)
        requires
            self is AwaitingHistory,
        ensures
            (match self {
                MatchFetch::AwaitingHistory { account_id } => r == MatchFetch::spec_after_history(
                    account_id,
                    outcome,
                ),
                _ => false,
            }),
    {
        match self {
            MatchFetch::AwaitingHistory { account_id } => match outcome {
                FetchOutcome::TransportFailure => MatchFetch::Failed {
                    error: Error::RemoteCallFailed { endpoint: Endpoint::History },
                },
                FetchOutcome::DecodeFailure => MatchFetch::Failed {
                    error: Error::MalformedResponse { shape: ResponseShape::MatchHistory },
                },
                FetchOutcome::Success(h) => {
                    let cursors = h.match_seq_num();
                    if cursors.len() == 0 {
                        MatchFetch::Failed {
                            error: Error::NoDataFound { what: MissingData::SequenceCursor },
                        }
                    } else {
                        MatchFetch::AwaitingDetail { account_id, cursor: cursors[0] }
                    }
                },
            },
            _ => unreached(),
        }
    }

    /// Advances past the detail hop.
    pub fn on_detail(self, outcome: FetchOutcome<MatchDetailResponse>) -> (r: MatchFetch)
        requires
            self is AwaitingDetail,
        ensures
            r == MatchFetch::spec_after_detail(outcome),
    {
        match outcome {
            FetchOutcome::TransportFailure => MatchFetch::Failed {
                error: Error::RemoteCallFailed { endpoint: Endpoint::Detail },
            },
            FetchOutcome::DecodeFailure => MatchFetch::Failed {
                error: Error::MalformedResponse { shape: ResponseShape::MatchDetail },
            },
            FetchOutcome::Success(d) => MatchFetch::Complete { response: d },
        }
    }
}

/// Two-hop sequencing law: a history response with a non-empty match
/// list advances the fetch to the detail hop keyed on exactly the
/// first match's sequence cursor, never any other value.
pub proof fn lemma_two_hop_sequencing(account_id: i64, h: MatchHistoryResponse)
    requires
        h.result.matches@.len() > 0,
    ensures
        MatchFetch::spec_after_history(account_id, FetchOutcome::Success(h))
            == (MatchFetch::AwaitingDetail {
            account_id,
            cursor: h.result.matches@[0].match_seq_num,
        }),
{
}

/// Empty-history law: a history response with no matches ends the
/// lookup with the no-data failure, and the detail hop is never
/// reached.
pub proof fn lemma_empty_history(account_id: i64, h: MatchHistoryResponse)
    requires
        h.result.matches@.len() == 0,
    ensures
        MatchFetch::spec_after_history(account_id, FetchOutcome::Success(h))
            == (MatchFetch::Failed {
            error: Error::NoDataFound { what: MissingData::SequenceCursor },
        }),
        !(MatchFetch::spec_after_history(account_id, FetchOutcome::Success(h))
            is AwaitingDetail),
{
}

/// Maps the outcome of the metadata API's constant call to the typed
/// result: the decoded response unmodified, or the typed failure.
pub fn constant_result(outcome: FetchOutcome<ConstantResponse>) -> (r: Result<
    ConstantResponse,
    Error,
>)
    ensures
        (match outcome {
            FetchOutcome::Success(c) => r == Ok::<ConstantResponse, Error>(c),
            FetchOutcome::TransportFailure => r == Err::<ConstantResponse, Error>(
                Error::RemoteCallFailed { endpoint: Endpoint::ReferenceData },
            ),
            FetchOutcome::DecodeFailure => r == Err::<ConstantResponse, Error>(
                Error::MalformedResponse { shape: ResponseShape::Constant },
            ),
        }),
{
    match outcome {
        FetchOutcome::Success(c) => Ok(c),
        FetchOutcome::TransportFailure => Err(
            Error::RemoteCallFailed { endpoint: Endpoint::ReferenceData },
        ),
        FetchOutcome::DecodeFailure => Err(
            Error::MalformedResponse { shape: ResponseShape::Constant },
        ),
    }
}

// ---------------------------------------------------------------------------
// Batch collection
// ---------------------------------------------------------------------------

/// The batch result over per-account outcomes, in order: the first
/// failure, or all pairs of response and account.
pub open spec fn spec_collect_batch(outcomes: Seq<(i64, Result<MatchDetailResponse, Error>)>) -> Result<Seq<(MatchDetailResponse, i64)>, Error>
    decreases outcomes.len(),
{
    if outcomes.len() == 0 {
        Ok(Seq::<(MatchDetailResponse, i64)>::empty())
    } else {
        match outcomes[0].1 {
            Err(e) => Err(e),
            Ok(response) => match spec_collect_batch(outcomes.drop_first()) {
                Err(e) => Err(e),
                Ok(rest) => Ok(seq![(response, outcomes[0].0)] + rest),
            },
        }
    }
}

/// Folds the per-account outcomes of a batch into the batch result:
/// fail-fast on the first failure, no partial results.
pub fn collect_batch(outcomes: Vec<(i64, Result<MatchDetailResponse, Error>)>) -> (r: Result<
    Vec<(MatchDetailResponse, i64)>,
    Error,
>)
    ensures
        (match r {
            Ok(pairs) => spec_collect_batch(outcomes@) == Ok::<
                Seq<(MatchDetailResponse, i64)>,
                Error,
            >(pairs@),
            Err(e) => spec_collect_batch(outcomes@) == Err::<
                Seq<(MatchDetailResponse, i64)>,
                Error,
            >(e),
        }),
    decreases outcomes@.len(),
{
    let mut rest = outcomes;
    if rest.len() == 0 {
        Ok(Vec::new())
    } else {
        let (account_id, outcome) = rest.remove(0);
        assert(rest@ =~= outcomes@.drop_first());
        match outcome {
            Err(e) => Err(e),
            Ok(response) => match collect_batch(rest) {
                Err(e) => Err(e),
                Ok(mut pairs) => {
                    pairs.insert(0, (response, account_id));
                    proof {
                        let tail = spec_collect_batch(outcomes@.drop_first());
                        assert(pairs@ =~= seq![(outcomes@[0].1->Ok_0, outcomes@[0].0)]
                            + tail->Ok_0);
                    }
                    Ok(pairs)
                },
            },
        }
    }
}

/// Batch fail-fast law: when the outcome at some position failed and
/// every earlier one succeeded, the whole batch reports exactly that
/// failure and returns no partial results.
pub proof fn lemma_batch_fail_fast(
    outcomes: Seq<(i64, Result<MatchDetailResponse, Error>)>,
    i: int,
)
    requires
        0 <= i < outcomes.len(),
        outcomes[i].1 is Err,
        forall|j: int| 0 <= j < i ==> outcomes[j].1 is Ok,
    ensures
        spec_collect_batch(outcomes) == Err::<Seq<(MatchDetailResponse, i64)>, Error>(
            outcomes[i].1->Err_0,
        ),
    decreases i,
{
    if i > 0 {
        lemma_batch_fail_fast(outcomes.drop_first(), i - 1);
    }
}

/// Batch success law: when every outcome succeeded, the batch result
/// is the full list of response-and-account pairs, in order.
pub proof fn lemma_batch_all_ok(outcomes: Seq<(i64, Result<MatchDetailResponse, Error>)>)
    requires
        forall|j: int| 0 <= j < outcomes.len() ==> outcomes[j].1 is Ok,
    ensures
        spec_collect_batch(outcomes) is Ok,
        spec_collect_batch(outcomes)->Ok_0.len() == outcomes.len(),
        forall|j: int|
            0 <= j < outcomes.len() ==> spec_collect_batch(outcomes)->Ok_0[j] == (
            outcomes[j].1->Ok_0,
            outcomes[j].0,
            ),
    decreases outcomes.len(),
{
    if outcomes.len() > 0 {
        lemma_batch_all_ok(outcomes.drop_first());
    }
}

} // verus!
