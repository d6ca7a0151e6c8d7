//! The request handler, in two steps around the upstream call: what to send,
//! and what to answer once the call has ended.

use crate::alias::generate_alias;
use crate::alias::is_short_token;
use crate::alias::selected_domain;
use crate::alias::Alias;
use crate::alias::AliasRequest;
use crate::alias::AliasView;
use crate::config::AppConfig;
use crate::reply::AliasResponse;
use crate::reply::AliasResponseData;
use crate::reply::Reply;
use crate::upstream::add_alias_request;
use crate::upstream::add_alias_result;
use crate::upstream::registration_of;
use crate::upstream::PrincipalPatch;
use crate::upstream::UpstreamOutcome;
use vstd::prelude::*;

verus! {

impl Reply {
    /// This is the answer to a request that made `alias`, whose upstream call
    /// ended in `outcome`, at the time `now_millis`: a server error without
    /// a body where the service could not be reached, and otherwise the
    /// created alias, whether or not the service accepted the mutation.
    pub open spec fn answers(
        &self,
        alias: AliasView,
        outcome: UpstreamOutcome,
        now_millis: u64,
    ) -> bool {
        match registration_of(outcome) {
            Err(_) => *self is InternalServerError,
            Ok(_) => {
                &&& *self matches Reply::Created(response)
                &&& response.data.echoes(alias, now_millis)
            },
        }
    }
}

/// Reads the wall clock as milliseconds since the Unix epoch.
///
/// Calls `chrono::Utc::now` and `timestamp_millis` on its result. The
/// contract claims only that the reading is not negative: `now` panics
/// rather than return a time before the epoch. Nothing else is said of the
/// number, which differs from call to call.
#[verifier::external_body]
fn epoch_millis() -> (millis: i64)
    ensures
        millis >= 0,
{
    chrono::Utc::now().timestamp_millis()
}

/// First step of the handler: generates the alias for a request, and the
/// upstream update that registers it. The caller sends the update and comes
/// back with the outcome.
pub fn create_alias(payload: AliasRequest, config: &AppConfig) -> (step: (Alias, PrincipalPatch))
    ensures
        is_short_token(step.0@.username),
        step.0@.domain == selected_domain(payload.domain.deep_view(), config.alias_domain@),
        step.1.registers(step.0@.address(), config),
{
    let alias = generate_alias(payload.domain, config);
    let patch = add_alias_request(&alias, config);
    (alias, patch)
}

/// The answer that reports `alias` as created, numbered `id`.
pub fn created(alias: Alias, id: u64) -> (reply: Reply)
    ensures
        reply matches Reply::Created(response) && response.data.echoes(alias@, id),
{
    let (username, domain, address) = alias.into_parts();
    Reply::Created(
        AliasResponse {
            data: AliasResponseData {
                id,
                email: address,
                local_part: username,
                domain,
                description: None,
                enabled: true,
            },
        },
    )
}

/// Assembles the answer for an alias whose upstream call ended in `outcome`,
/// with `now_millis` as the time of the answer.
pub fn reply_at(alias: Alias, outcome: UpstreamOutcome, now_millis: u64) -> (reply: Reply)
    ensures
        reply.answers(alias@, outcome, now_millis),
{
    match add_alias_result(outcome) {
        Err(_) => Reply::InternalServerError,
        Ok(_) => created(alias, now_millis),
    }
}

/// Second step of the handler: the answer for an alias whose upstream call
/// ended in `outcome`. A created alias is numbered by the wall clock, read
/// once the upstream call is over; the number is whatever the clock says,
/// which is never negative.
pub fn create_alias_reply(alias: Alias, outcome: UpstreamOutcome) -> (reply: Reply)
    ensures
        outcome is Unreachable ==> reply is InternalServerError,
        outcome is Responded ==> reply.answers(alias@, outcome, reply->Created_0.data.id),
        outcome is Responded ==> reply->Created_0.data.id <= i64::MAX,
{
    match add_alias_result(outcome) {
        Err(_) => Reply::InternalServerError,
        Ok(_) => {
            let now = epoch_millis();
            created(alias, now as u64)
        },
    }
}

/// A transport failure is answered with status 500 and no body, so nothing
/// of the alias is disclosed.
pub proof fn lemma_unreachable_is_server_error(reply: Reply, alias: AliasView, now_millis: u64)
    requires
        reply.answers(alias, UpstreamOutcome::Unreachable, now_millis),
    ensures
        reply.status() == 500,
        reply.content() is None,
{
}

/// Whatever status the upstream service answers with, the relay reports the
/// alias as created: a rejected mutation is not passed on to the caller.
pub proof fn lemma_any_response_is_created(
    reply: Reply,
    alias: AliasView,
    status: u16,
    now_millis: u64,
)
    requires
        reply.answers(alias, UpstreamOutcome::Responded { status }, now_millis),
    ensures
        reply.status() == 201,
        reply is Created,
        reply->Created_0.data.echoes(alias, now_millis),
{
}

/// Answers made at different times carry different ids, also for one and the
/// same alias: nothing is remembered between requests.
pub proof fn lemma_ids_follow_the_clock(
    first: Reply,
    second: Reply,
    alias: AliasView,
    first_status: u16,
    second_status: u16,
    first_millis: u64,
    second_millis: u64,
)
    requires
        first.answers(alias, UpstreamOutcome::Responded { status: first_status }, first_millis),
        second.answers(alias, UpstreamOutcome::Responded { status: second_status }, second_millis),
    ensures
        first is Created,
        second is Created,
        first->Created_0.data.id == second->Created_0.data.id <==> first_millis == second_millis,
{
}

} // verus!
