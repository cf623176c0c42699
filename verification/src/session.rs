//! The per-request verification flow: cookie lifecycle, the response owed to
//! each outcome, and a state machine that tracks the pooled-connection lease
//! through one request.
//!
//! Classification itself is pure (`crate::auth`); this module decides what
//! follows from it: which cookies to clear, which status and body to answer
//! with, and when the leased connection must be back in the pool.

use vstd::prelude::*;
use vstd::pervasive::unreached;
use crate::auth::LookupReply;
use crate::auth::VerifyStatus;
use crate::auth::hash_token;
use crate::auth::spec_verify;
use crate::auth::token_digest_of;
use crate::auth::verify_user;
use crate::response::HttpResponse;
use crate::templates::LoginPage;
use crate::templates::NoticePage;
use crate::templates::spec_e500_message;
use crate::templates::spec_login_page;
use crate::templates::spec_notice_page;

verus! {

/// What the cookie lifecycle does to the client's session cookies after an
/// outcome.
#[derive(Clone, Copy, Debug, PartialEq, Eq, Structural)]
pub enum CookieAction {
    Keep,
    ClearBoth,
}

/// The lifecycle table: only a rejection clears the cookie pair. An
/// authenticated session keeps its cookies, and an infrastructure failure
/// must not touch them — they may still be valid once the store recovers.
pub open spec fn spec_cookie_action(st: VerifyStatus) -> CookieAction {
    match st {
        VerifyStatus::No => CookieAction::ClearBoth,
        VerifyStatus::Yes => CookieAction::Keep,
        VerifyStatus::ServerError => CookieAction::Keep,
    }
}

/// Decide the cookie action for an outcome.
pub fn cookie_action(st: &VerifyStatus) -> (a: CookieAction)
    ensures
        a == spec_cookie_action(*st),
{
    match st {
        VerifyStatus::No => CookieAction::ClearBoth,
        VerifyStatus::Yes => CookieAction::Keep,
        VerifyStatus::ServerError => CookieAction::Keep,
    }
}

/// The message shown when a session is rejected. It is the same for a missing
/// record and for a record owned by someone else: the response must not
/// reveal which case occurred.
pub open spec fn spec_rejected_message() -> Seq<char> {
    "Found outdated or invalid cookies."@
}

/// How a request ends: hand the verified username onward, or answer with a
/// fully-formed response and a cookie action.
#[derive(Debug, Clone, PartialEq, Eq)]
pub enum Conclusion {
    Proceed { username: String },
    Respond { response: HttpResponse, cookies: CookieAction },
}

/// The conclusion authenticates exactly this username.
pub open spec fn proceeds_as(c: Conclusion, username: Seq<char>) -> bool {
    match c {
        Conclusion::Proceed { username: u } => u@ == username,
        _ => false,
    }
}

/// The conclusion is the rejection response: status 401, the fixed rejection
/// notice with a redirect to the entry point, and both cookies cleared.
pub open spec fn rejection_response(c: Conclusion) -> bool {
    match c {
        Conclusion::Respond { response, cookies } => response.status == 401 && response.body@
            == spec_notice_page(spec_rejected_message(), true) && cookies
            == CookieAction::ClearBoth,
        _ => false,
    }
}

/// The conclusion is the infrastructure-failure response: status 500, the
/// generic error page with no detail, and cookies untouched.
pub open spec fn failure_response(c: Conclusion) -> bool {
    match c {
        Conclusion::Respond { response, cookies } => response.status == 500 && response.body@
            == spec_notice_page(spec_e500_message(), false) && cookies == CookieAction::Keep,
        _ => false,
    }
}

/// The conclusion is the entry page: status 200, the plain login page, and
/// cookies untouched.
pub open spec fn entry_response(c: Conclusion) -> bool {
    match c {
        Conclusion::Respond { response, cookies } => response.status == 200 && response.body@
            == spec_login_page(false) && cookies == CookieAction::Keep,
        _ => false,
    }
}

/// Exactly the conclusion owed to a claimed username and an outcome: `Yes`
/// proceeds as that username; `No` answers with the rejection response; a
/// store failure answers with the generic failure response.
pub open spec fn concluded_from(c: Conclusion, username: Seq<char>, st: VerifyStatus) -> bool {
    match st {
        VerifyStatus::Yes => proceeds_as(c, username),
        VerifyStatus::No => rejection_response(c),
        VerifyStatus::ServerError => failure_response(c),
    }
}

/// Everything a client can observe of two responding conclusions is equal:
/// status, body, and cookie action.
pub open spec fn respond_observables_eq(c1: Conclusion, c2: Conclusion) -> bool {
    match (c1, c2) {
        (
            Conclusion::Respond { response: r1, cookies: a1 },
            Conclusion::Respond { response: r2, cookies: a2 },
        ) => r1.status == r2.status && r1.body@ == r2.body@ && a1 == a2,
        _ => false,
    }
}

/// Turn a claimed username and a verification outcome into the conclusion
/// owed to it. Classification stays pure; this is the only place the outcome
/// becomes a response and a cookie decision.
pub fn conclude_verification(username: String, st: VerifyStatus) -> (c: Conclusion)
    ensures
        concluded_from(c, username@, st),
{
    match st {
        VerifyStatus::Yes => Conclusion::Proceed { username },
        VerifyStatus::No => Conclusion::Respond {
            response: HttpResponse {
                status: 401,
                body: NoticePage::new_redirect("Found outdated or invalid cookies."),
            },
            cookies: CookieAction::ClearBoth,
        },
        VerifyStatus::ServerError => Conclusion::Respond {
            response: NoticePage::re500(),
            cookies: CookieAction::Keep,
        },
    }
}

/// Where one request stands: waiting for a pooled connection, holding one
/// while the store answers, or settled with a conclusion.
#[derive(Debug, Clone, PartialEq, Eq)]
pub enum Phase {
    AwaitingConnection { username: String, token: String },
    Holding { username: String, token: String },
    Done { conclusion: Conclusion },
}

/// One request's verification flow, with its connection-lease ledger: how
/// many connections it acquired, released, and how many store lookups it
/// made. The well-formedness invariant ties the ledger to the phase, so a
/// settled request has provably returned every connection it took.
#[derive(Debug, Clone, PartialEq, Eq)]
pub struct SessionFlow {
    pub phase: Phase,
    pub acquired: u32,
    pub released: u32,
    pub lookups: u32,
}

/// The claimed username of a flow still in progress.
pub open spec fn flow_username(flow: SessionFlow) -> Seq<char> {
    match flow.phase {
        Phase::AwaitingConnection { username, .. } => username@,
        Phase::Holding { username, .. } => username@,
        Phase::Done { .. } => Seq::<char>::empty(),
    }
}

/// The raw token of a flow still in progress.
pub open spec fn flow_token(flow: SessionFlow) -> Seq<char> {
    match flow.phase {
        Phase::AwaitingConnection { token, .. } => token@,
        Phase::Holding { token, .. } => token@,
        Phase::Done { .. } => Seq::<char>::empty(),
    }
}

/// The flow is settled and its conclusion is the one owed to this username
/// and outcome.
pub open spec fn done_with(flow: SessionFlow, username: Seq<char>, st: VerifyStatus) -> bool {
    match flow.phase {
        Phase::Done { conclusion } => concluded_from(conclusion, username, st),
        _ => false,
    }
}

/// The flow is settled with the entry page and untouched cookies.
pub open spec fn done_with_entry(flow: SessionFlow) -> bool {
    match flow.phase {
        Phase::Done { conclusion } => entry_response(conclusion),
        _ => false,
    }
}

impl SessionFlow {
    /// The lease ledger matches the phase: a connection is held exactly in
    /// `Holding`, at most one is ever taken, a lookup needs a held
    /// connection, and a settled flow has released all it acquired.
    pub open spec fn wf(self) -> bool {
        &&& self.released <= self.acquired
        &&& self.acquired <= 1
        &&& self.lookups <= self.acquired
        &&& match self.phase {
            Phase::AwaitingConnection { .. } => self.acquired == 0 && self.lookups == 0,
            Phase::Holding { .. } => self.acquired == 1 && self.released == 0 && self.lookups
                == 0,
            Phase::Done { .. } => self.released == self.acquired,
        }
    }

    /// The flow has settled.
    pub open spec fn is_done(self) -> bool {
        self.phase is Done
    }

    /// Begin a request from the two optional cookies. With both present,
    /// verification is owed and nothing has been acquired yet. With either
    /// absent there is nothing to verify: the request settles at once with
    /// the entry page — no connection, no store lookup, no cookie mutation.
    pub fn start(username: Option<String>, token: Option<String>) -> (flow: SessionFlow)
        ensures
            flow.wf(),
            flow.acquired == 0,
            flow.released == 0,
            flow.lookups == 0,
            username is Some && token is Some ==> flow.phase is AwaitingConnection
                && flow_username(flow) == username->0@ && flow_token(flow) == token->0@,
            !(username is Some && token is Some) ==> done_with_entry(flow),
    {
        match (username, token) {
            (Some(u), Some(t)) => SessionFlow {
                phase: Phase::AwaitingConnection { username: u, token: t },
                acquired: 0,
                released: 0,
                lookups: 0,
            },
            _ => SessionFlow {
                phase: Phase::Done {
                    conclusion: Conclusion::Respond {
                        response: HttpResponse { status: 200, body: LoginPage::new(false) },
                        cookies: CookieAction::Keep,
                    },
                },
                acquired: 0,
                released: 0,
                lookups: 0,
            },
        }
    }

    /// No pooled connection could be acquired: the request settles as an
    /// infrastructure failure. Nothing was acquired, no lookup happened, and
    /// the cookies are untouched — the session may still be valid once the
    /// store recovers.
    pub fn on_pool_error(&mut self)
        requires
            old(self).wf(),
            old(self).phase is AwaitingConnection,
        ensures
            final(self).wf(),
            final(self).acquired == 0,
            final(self).released == 0,
            final(self).lookups == 0,
            done_with(*final(self), flow_username(*old(self)), VerifyStatus::ServerError),
    {
        let c = Conclusion::Respond { response: NoticePage::re500(), cookies: CookieAction::Keep };
        self.phase = Phase::Done { conclusion: c };
    }

    /// A pooled connection has been leased to this request. The token's
    /// digest is computed and returned: it is the key the store lookup must
    /// use, inside the auth keyspace. The flow now holds the connection.
    pub fn on_connection(&mut self) -> (key: String)
        requires
            old(self).wf(),
            old(self).phase is AwaitingConnection,
        ensures
            final(self).wf(),
            final(self).phase is Holding,
            final(self).acquired == 1,
            final(self).released == 0,
            final(self).lookups == 0,
            flow_username(*final(self)) == flow_username(*old(self)),
            flow_token(*final(self)) == flow_token(*old(self)),
            key@ == token_digest_of(flow_token(*old(self))),
    {
        let (u, t) = match &self.phase {
            Phase::AwaitingConnection { username, token } => (username.clone(), token.clone()),
            _ => unreached(),
        };
        let key = hash_token(t.as_str());
        self.phase = Phase::Holding { username: u, token: t };
        self.acquired = self.acquired + 1;
        key
    }

    /// The store round-trip for the token's digest has ended, in one of the
    /// three reply shapes. The connection is released before anything acts on
    /// the classification, and the request settles with exactly the
    /// conclusion owed to the claimed username and the reply.
    pub fn on_lookup(&mut self, reply: LookupReply)
        requires
            old(self).wf(),
            old(self).phase is Holding,
        ensures
            final(self).wf(),
            final(self).acquired == 1,
            final(self).released == 1,
            final(self).lookups == 1,
            done_with(
                *final(self),
                flow_username(*old(self)),
                spec_verify(flow_username(*old(self)), reply),
            ),
    {
        let u = match &self.phase {
            Phase::Holding { username, .. } => username.clone(),
            _ => unreached(),
        };
        self.released = self.released + 1;
        self.lookups = self.lookups + 1;
        let st = verify_user(u.as_str(), &reply);
        let c = conclude_verification(u, st);
        self.phase = Phase::Done { conclusion: c };
    }

    /// The request was aborted while the connection was held. The connection
    /// is still released — a lease never leaks — and the flow settles as an
    /// infrastructure failure with untouched cookies; no response is owed to
    /// an aborted request.
    pub fn on_abort(&mut self)
        requires
            old(self).wf(),
            old(self).phase is Holding,
        ensures
            final(self).wf(),
            final(self).acquired == 1,
            final(self).released == 1,
            final(self).lookups == 0,
            done_with(*final(self), flow_username(*old(self)), VerifyStatus::ServerError),
    {
        self.released = self.released + 1;
        let c = Conclusion::Respond { response: NoticePage::re500(), cookies: CookieAction::Keep };
        self.phase = Phase::Done { conclusion: c };
    }
}

/// A pair with an existing matching token record authenticates: the reply
/// holding exactly the claimed username classifies as `Yes`, and the owed
/// conclusion proceeds as that username.
pub proof fn lemma_matching_record_authenticates(claimed: Seq<char>, stored: String, c: Conclusion)
    requires
        stored@ == claimed,
        concluded_from(c, claimed, spec_verify(claimed, LookupReply::Found(stored))),
    ensures
        spec_verify(claimed, LookupReply::Found(stored)) == VerifyStatus::Yes,
        proceeds_as(c, claimed),
{
}

/// A token with no record is rejected, and the owed response answers 401 and
/// clears both cookies.
pub proof fn lemma_missing_record_rejected(claimed: Seq<char>, c: Conclusion)
    requires
        concluded_from(c, claimed, spec_verify(claimed, LookupReply::Missing)),
    ensures
        spec_verify(claimed, LookupReply::Missing) == VerifyStatus::No,
        rejection_response(c),
{
}

/// A record owned by a different username rejects — never authenticates —
/// and nothing observable (status, body, cookie action) distinguishes its
/// response from the no-such-token response.
pub proof fn lemma_wrong_owner_indistinguishable(
    claimed: Seq<char>,
    stored: String,
    c_wrong: Conclusion,
    c_missing: Conclusion,
)
    requires
        stored@ != claimed,
        concluded_from(c_wrong, claimed, spec_verify(claimed, LookupReply::Found(stored))),
        concluded_from(c_missing, claimed, spec_verify(claimed, LookupReply::Missing)),
    ensures
        spec_verify(claimed, LookupReply::Found(stored)) == VerifyStatus::No,
        respond_observables_eq(c_wrong, c_missing),
{
}

/// Any store failure other than not-found is an infrastructure failure: the
/// owed response answers 500 and leaves the cookies untouched.
pub proof fn lemma_store_failure_is_infrastructure(claimed: Seq<char>, c: Conclusion)
    requires
        concluded_from(c, claimed, spec_verify(claimed, LookupReply::Failed)),
    ensures
        spec_verify(claimed, LookupReply::Failed) == VerifyStatus::ServerError,
        failure_response(c),
{
}

/// Repeating a rejected verification with the same stale cookies concludes
/// the same way each time: same status, same body, same cookie-clear action.
pub proof fn lemma_rejection_idempotent(
    claimed: Seq<char>,
    reply: LookupReply,
    c1: Conclusion,
    c2: Conclusion,
)
    requires
        spec_verify(claimed, reply) == VerifyStatus::No,
        concluded_from(c1, claimed, spec_verify(claimed, reply)),
        concluded_from(c2, claimed, spec_verify(claimed, reply)),
    ensures
        respond_observables_eq(c1, c2),
{
}

/// A settled request has released exactly as many connections as it
/// acquired, and it never acquired more than one — the lease never leaks,
/// whether the flow settled through a lookup, a pool failure, or an abort.
pub proof fn lemma_lease_balanced(flow: SessionFlow)
    requires
        flow.wf(),
        flow.is_done(),
    ensures
        flow.released == flow.acquired,
        flow.acquired <= 1,
{
}

} // verus!
