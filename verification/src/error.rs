//! The typed failure taxonomy of the pipeline.
//!
//! Every failure of the retrieval or projection code is one of these
//! kinds; nothing in the library recovers internally, each failure is
//! handed to the caller as a value.

use vstd::prelude::*;
use crate::text::{push_dec_i64, push_str_chars, spec_dec_int, string_of_chars};

verus! {

/// The remote endpoint that a transport failure happened on.
#[derive(Clone, Copy, Debug, PartialEq, Eq, Structural)]
pub enum Endpoint {
    History,
    Detail,
    ReferenceData,
}

/// The response shape that a body failed to decode into.
#[derive(Clone, Copy, Debug, PartialEq, Eq, Structural)]
pub enum ResponseShape {
    MatchHistory,
    MatchDetail,
    Constant,
}

/// The datum that a well-formed response failed to carry.
#[derive(Clone, Copy, Debug, PartialEq, Eq, Structural)]
pub enum MissingData {
    SequenceCursor,
}

/// A failure of the retrieval-and-projection pipeline.
#[derive(Clone, Copy, Debug, PartialEq, Eq, Structural)]
pub enum Error {
    /// The transport layer failed while calling a remote endpoint.
    RemoteCallFailed { endpoint: Endpoint },
    /// A response body did not match the expected schema.
    MalformedResponse { shape: ResponseShape },
    /// A well-formed response carried no usable data; an expected
    /// real-world outcome, not a bug.
    NoDataFound { what: MissingData },
    /// The requested account is not among a match's players; always a
    /// data-consistency bug.
    PlayerNotFound { account_id: i64 },
}

/// The label of an endpoint, as it appears in failure messages.
pub open spec fn spec_endpoint_label(e: Endpoint) -> Seq<char> {
    match e {
        Endpoint::History => "history"@,
        Endpoint::Detail => "detail"@,
        Endpoint::ReferenceData => "reference-data"@,
    }
}

/// The label of a response shape, as it appears in failure messages.
pub open spec fn spec_shape_label(s: ResponseShape) -> Seq<char> {
    match s {
        ResponseShape::MatchHistory => "MatchHistory"@,
        ResponseShape::MatchDetail => "MatchDetail"@,
        ResponseShape::Constant => "ConstantResponse"@,
    }
}

/// The label of a missing datum, as it appears in failure messages.
pub open spec fn spec_missing_label(m: MissingData) -> Seq<char> {
    match m {
        MissingData::SequenceCursor => "sequence cursor"@,
    }
}

/// The full message of a failure.
pub open spec fn spec_error_message(e: Error) -> Seq<char> {
    match e {
        Error::RemoteCallFailed { endpoint } => "RemoteCallFailed: error when requesting the "@
            + spec_endpoint_label(endpoint) + " endpoint"@,
        Error::MalformedResponse { shape } => "MalformedResponse: invalid data format when trying to parse response to "@
            + spec_shape_label(shape),
        Error::NoDataFound { what } => "NoDataFound: expected "@ + spec_missing_label(what)
            + " but found None"@,
        Error::PlayerNotFound { account_id } => "PlayerNotFound: account "@ + spec_dec_int(
            account_id as int,
        ) + " is not among the match's players"@,
    }
}

impl Endpoint {
    /// The endpoint's label.
    pub fn label(&self) -> (r: String)
        ensures
            r@ == spec_endpoint_label(*self),
    {
        match self {
            Endpoint::History => "history".to_owned(),
            Endpoint::Detail => "detail".to_owned(),
            Endpoint::ReferenceData => "reference-data".to_owned(),
        }
    }
}

impl ResponseShape {
    /// The shape's label.
    pub fn label(&self) -> (r: String)
        ensures
            r@ == spec_shape_label(*self),
    {
        match self {
            ResponseShape::MatchHistory => "MatchHistory".to_owned(),
            ResponseShape::MatchDetail => "MatchDetail".to_owned(),
            ResponseShape::Constant => "ConstantResponse".to_owned(),
        }
    }
}

impl MissingData {
    /// The missing datum's label.
    pub fn label(&self) -> (r: String)
        ensures
            r@ == spec_missing_label(*self),
    {
        match self {
            MissingData::SequenceCursor => "sequence cursor".to_owned(),
        }
    }
}

impl Error {
    /// A human-readable description of the failure.
    pub fn message(&self) -> (r: String)
        ensures
            r@ == spec_error_message(*self),
    {
        let mut out: Vec<char> = Vec::new();
        match self {
            Error::RemoteCallFailed { endpoint } => {
                push_str_chars(&mut out, "RemoteCallFailed: error when requesting the ");
                match endpoint {
                    Endpoint::History => push_str_chars(&mut out, "history"),
                    Endpoint::Detail => push_str_chars(&mut out, "detail"),
                    Endpoint::ReferenceData => push_str_chars(&mut out, "reference-data"),
                }
                push_str_chars(&mut out, " endpoint");
            },
            Error::MalformedResponse { shape } => {
                push_str_chars(
                    &mut out,
                    "MalformedResponse: invalid data format when trying to parse response to ",
                );
                match shape {
                    ResponseShape::MatchHistory => push_str_chars(&mut out, "MatchHistory"),
                    ResponseShape::MatchDetail => push_str_chars(&mut out, "MatchDetail"),
                    ResponseShape::Constant => push_str_chars(&mut out, "ConstantResponse"),
                }
            },
            Error::NoDataFound { what } => {
                push_str_chars(&mut out, "NoDataFound: expected ");
                match what {
                    MissingData::SequenceCursor => push_str_chars(&mut out, "sequence cursor"),
                }
                push_str_chars(&mut out, " but found None");
            },
            Error::PlayerNotFound { account_id } => {
                push_str_chars(&mut out, "PlayerNotFound: account ");
                push_dec_i64(&mut out, *account_id);
                push_str_chars(&mut out, " is not among the match's players");
            },
        }
        assert(out@ =~= spec_error_message(*self));
        string_of_chars(&out)
    }
}

} // verus!
