//! Reading correlation tokens out of opaque JSON payloads.
//!
//! Correlation needs exactly three reads from a payload: the target id of a
//! cancellation, the token of a progress notification, and the optional
//! work-done token a progress-capable request declares. Each read is a real
//! protocol-crate deserialization, so each is a trusted call whose result is
//! named; everything that consumes the result is verified against the name.

use vstd::prelude::*;

use crate::message::{IdView, ProtocolId};

verus! {

/// The id view of an optionally parsed identifier.
pub open spec fn opt_id_view(r: Option<ProtocolId>) -> Option<IdView> {
    match r {
        Some(id) => Some(id@),
        None => None,
    }
}

/// The target id embedded in a cancellation payload, if the text parses as
/// one; a function of the text alone.
pub uninterp spec fn cancel_id_of(params: Seq<char>) -> Option<IdView>;

/// The token embedded in a progress payload, if the text parses as one; a
/// function of the text alone.
pub uninterp spec fn progress_token_of(params: Seq<char>) -> Option<IdView>;

/// The work-done token a request payload declares, if the text parses as a
/// work-done-progress structure carrying one; a function of the text alone.
pub uninterp spec fn work_done_token_of(params: Seq<char>) -> Option<IdView>;

/// Relies on serde_json::from_str deserializing lsp_types::CancelParams:
/// the target id of a cancellation, read from the payload text alone.
#[verifier::external_body]
pub(crate) fn parse_cancel_id(params: &str) -> (r: Option<ProtocolId>)
    ensures
        opt_id_view(r) == cancel_id_of(params@),
{
    match serde_json::from_str::<lsp_types::CancelParams>(params) {
        Ok(p) => Some(match p.id {
            lsp_types::NumberOrString::Number(n) => ProtocolId::Number(n),
            lsp_types::NumberOrString::String(s) => ProtocolId::Text(s),
        }),
        Err(_) => None,
    }
}

/// Relies on serde_json::from_str deserializing lsp_types::ProgressParams:
/// the token of a progress notification, read from the payload text alone.
#[verifier::external_body]
pub(crate) fn parse_progress_token(params: &str) -> (r: Option<ProtocolId>)
    ensures
        opt_id_view(r) == progress_token_of(params@),
{
    match serde_json::from_str::<lsp_types::ProgressParams>(params) {
        Ok(p) => Some(match p.token {
            lsp_types::NumberOrString::Number(n) => ProtocolId::Number(n),
            lsp_types::NumberOrString::String(s) => ProtocolId::Text(s),
        }),
        Err(_) => None,
    }
}

/// Relies on serde_json::from_str deserializing
/// lsp_types::WorkDoneProgressParams: the work-done token a request payload
/// declares, read from the payload text alone. Yields `None` both when the
/// text does not parse and when the parsed structure declares no token.
#[verifier::external_body]
pub(crate) fn parse_work_done_token(params: &str) -> (r: Option<ProtocolId>)
    ensures
        opt_id_view(r) == work_done_token_of(params@),
{
    match serde_json::from_str::<lsp_types::WorkDoneProgressParams>(params) {
        Ok(p) => match p.work_done_token {
            Some(lsp_types::NumberOrString::Number(n)) => Some(ProtocolId::Number(n)),
            Some(lsp_types::NumberOrString::String(s)) => Some(ProtocolId::Text(s)),
            None => None,
        },
        Err(_) => None,
    }
}

} // verus!
