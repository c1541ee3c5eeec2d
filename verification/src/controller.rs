//! What the HTTP handlers answer, decided from the outcomes of the service
//! calls they make.
use vstd::prelude::*;
use vstd::string::*;

use crate::dtos::ExpirationOptions;
use crate::services::authentication::UserRegistrationError;
use crate::services::url_shortener::{
    lemma_fresh_entry_expiry, lemma_visits_add_up, spec_count_visits, ShortenUrlError,
    ShortenedUrl,
};
use crate::time::{is_clock_reading, UnixTime};
use crate::services::users::User;

verus! {

/// An HTTP reply: status code, body, and the `Location` header of a redirect.
#[derive(Clone, Debug)]
pub struct Reply {
    pub status: u16,
    pub body: String,
    pub location: Option<String>,
}

impl Reply {
    /// A reply with no redirect target.
    pub fn new(status: u16, body: String) -> (r: Reply)
        ensures
            r.status == status,
            r.body == body,
            r.location is None,
    {
        Reply { status, body, location: None }
    }
}

/// The lifetime of a url shortened on behalf of `user`: the requested one
/// when a signed-in user asked for one, one hour otherwise.
pub open spec fn spec_effective_expiration(
    user: Option<User>,
    expire_in: Option<ExpirationOptions>,
) -> ExpirationOptions {
    if user is Some && expire_in is Some {
        expire_in->0
    } else {
        ExpirationOptions::Hour
    }
}

/// The lifetime a shortening request gets: anonymous requests, and
/// requests that name none, get the one-hour default.
pub fn effective_expiration(user: &Option<User>, expire_in: Option<ExpirationOptions>) -> (e:
    ExpirationOptions)
    ensures
        e == spec_effective_expiration(*user, expire_in),
{
    match (user, expire_in) {
        (Some(_), Some(requested)) => requested,
        _ => ExpirationOptions::default(),
    }
}

/// A url shortened for an anonymous request expires one hour after it was
/// created, whatever lifetime the request named.
pub proof fn lemma_anonymous_entries_live_one_hour(
    requested: Option<ExpirationOptions>,
    id: Seq<char>,
    url: Seq<char>,
    created_at: UnixTime,
    u: ShortenedUrl,
)
    requires
        is_clock_reading(created_at),
        ShortenedUrl::spec_fresh(
            id,
            url,
            created_at,
            spec_effective_expiration(None, requested),
            u,
        ),
    ensures
        u.expire_at.total_nanos() == created_at.total_nanos() + 3600 * 1_000_000_000,
{
    lemma_fresh_entry_expiry(id, url, created_at, ExpirationOptions::Hour, u);
}

/// A url shortened for a signed-in user who named a lifetime expires that
/// lifetime after it was created.
pub proof fn lemma_signed_in_lifetime_is_honoured(
    user: User,
    requested: ExpirationOptions,
    id: Seq<char>,
    url: Seq<char>,
    created_at: UnixTime,
    u: ShortenedUrl,
)
    requires
        is_clock_reading(created_at),
        requested.spec_span().wf(),
        ShortenedUrl::spec_fresh(
            id,
            url,
            created_at,
            spec_effective_expiration(Some(user), Some(requested)),
            u,
        ),
    ensures
        u.expire_at.total_nanos() == created_at.total_nanos() + requested.spec_span().total_nanos(),
{
    lemma_fresh_entry_expiry(id, url, created_at, requested, u);
}

/// The reply to `POST /shorten`, given what shortening gave: the new id
/// with 200, a refusal of the service with its own reply, or 500 for any
/// other failure (`Err(None)`).
pub fn shorten_reply(outcome: Result<String, Option<ShortenUrlError>>) -> (r: Reply)
    ensures
        r.location is None,
        outcome matches Ok(id) ==> r.status == 200 && r.body@ == id@,
        outcome matches Err(Some(e)) ==> r.status == 400 && r.body@ == e.spec_to_string(),
        outcome matches Err(None) ==> r.status == 500 && r.body@ == "An unknown error has occured"@,
{
    match outcome {
        Ok(id) => Reply::new(200, id),
        Err(Some(e)) => e.into_reply(),
        Err(None) => Reply::new(500, "An unknown error has occured".to_owned()),
    }
}

/// What `GET /{id}` does: the reply, and whether to count a visit of `id`.
#[derive(Clone, Debug)]
pub struct RedirectDecision {
    pub reply: Reply,
    pub record_visit: bool,
}

/// Whether `GET /{id}` counts a visit, given what looking the id up gave:
/// exactly when the lookup found an entry.
pub open spec fn records_visit(lookup: Result<Option<ShortenedUrl>, String>) -> bool {
    lookup matches Ok(Some(_))
}

/// How many of a run of `GET /{id}` requests, each given by what its
/// lookup gave, count a visit.
pub open spec fn visits_recorded(lookups: Seq<Result<Option<ShortenedUrl>, String>>) -> nat
    decreases lookups.len(),
{
    if lookups.len() == 0 {
        0
    } else {
        visits_recorded(lookups.drop_last()) + if records_visit(lookups.last()) {
            1nat
        } else {
            0nat
        }
    }
}

/// Requests whose lookups all find the entry each count a visit.
proof fn lemma_found_lookups_all_count(lookups: Seq<Result<Option<ShortenedUrl>, String>>)
    requires
        forall|i: int| 0 <= i < lookups.len() ==> records_visit(#[trigger] lookups[i]),
    ensures
        visits_recorded(lookups) == lookups.len(),
    decreases lookups.len(),
{
    if lookups.len() > 0 {
        let rest = lookups.drop_last();
        assert forall|i: int| 0 <= i < rest.len() implies records_visit(#[trigger] rest[i]) by {
            assert(rest[i] == lookups[i]);
        }
        lemma_found_lookups_all_count(rest);
        assert(records_visit(lookups[lookups.len() - 1]));
    }
}

/// Following a live short link `n` times counts `n` visits: every lookup
/// finds the entry, every redirect records a visit, and the entry's stored
/// count goes from `stored` to exactly `stored + n` (while that fits the
/// 64-bit integer it is stored as).
pub proof fn lemma_redirects_count_every_visit(
    lookups: Seq<Result<Option<ShortenedUrl>, String>>,
    stored: i64,
)
    requires
        forall|i: int| 0 <= i < lookups.len() ==> (#[trigger] lookups[i] matches Ok(Some(_))),
        stored + lookups.len() <= i64::MAX,
    ensures
        visits_recorded(lookups) == lookups.len(),
        spec_count_visits(stored, visits_recorded(lookups)) == Some(
            (stored + lookups.len()) as i64,
        ),
{
    assert forall|i: int| 0 <= i < lookups.len() implies records_visit(#[trigger] lookups[i]) by {
        assert(lookups[i] matches Ok(Some(_)));
    }
    lemma_found_lookups_all_count(lookups);
    lemma_visits_add_up(stored, lookups.len());
}

/// What `GET /{id}` does, given what looking the id up gave: a found url
/// is counted as visited and redirected to (307, `Location` set to it); an
/// unknown id is 404; a failed lookup is 500 with the failure's text.
pub fn redirect_decision(lookup: Result<Option<ShortenedUrl>, String>) -> (d: RedirectDecision)
    ensures
        d.record_visit == records_visit(lookup),
        lookup matches Ok(Some(u)) ==> {
            &&& d.reply.status == 307
            &&& d.reply.location matches Some(l) && l@ == u.full_url@
            &&& d.reply.body@ == "Redirecting to "@ + u.full_url@ + "..."@
        },
        lookup matches Ok(None) ==> {
            &&& d.reply.status == 404
            &&& d.reply.location is None
            &&& d.reply.body@ == "No url for this id"@
        },
        lookup matches Err(msg) ==> {
            &&& d.reply.status == 500
            &&& d.reply.location is None
            &&& d.reply.body@ == msg@
        },
{
    match lookup {
        Ok(Some(u)) => {
            let mut body = "Redirecting to ".to_owned();
            body.append(u.full_url.as_str());
            body.append("...");
            RedirectDecision {
                reply: Reply { status: 307, body, location: Some(u.full_url) },
                record_visit: true,
            }
        },
        Ok(None) => RedirectDecision {
            reply: Reply::new(404, "No url for this id".to_owned()),
            record_visit: false,
        },
        Err(msg) => RedirectDecision { reply: Reply::new(500, msg), record_visit: false },
    }
}

/// The reply to `POST /register`, given what registering gave: 200 with an
/// empty body, the refusal's own reply, or 500 for any other failure
/// (`Err(None)`).
pub fn register_reply(outcome: Result<(), Option<UserRegistrationError>>) -> (r: Reply)
    ensures
        r.location is None,
        outcome is Ok ==> r.status == 200 && r.body@ == Seq::<char>::empty(),
        outcome matches Err(Some(e)) ==> r.status == 409 && r.body@ == e.spec_to_string(),
        outcome matches Err(None) ==> r.status == 500 && r.body@ == "An error occurred"@,
{
    match outcome {
        Ok(()) => Reply::new(200, String::new()),
        Err(Some(e)) => e.into_reply(),
        Err(None) => Reply::new(500, "An error occurred".to_owned()),
    }
}

/// The first step of `POST /login`, given the user the credentials
/// identify: the e-mail to keep in the session, or 404 when there is none.
pub fn login_decision(user: Option<User>) -> (d: Result<String, Reply>)
    ensures
        user matches Some(u) ==> (d matches Ok(email) && email@ == u.email@),
        user is None ==> (d matches Err(r) && r.status == 404 && r.location is None
            && r.body@ == "Could not find an user for those credentials"@),
{
    match user {
        Some(u) => Ok(u.email),
        None => Err(Reply::new(404, "Could not find an user for those credentials".to_owned())),
    }
}

/// The reply to `POST /login` once the e-mail was put in the session: 200
/// with an empty body, or 500 with the session's failure.
pub fn login_reply(stored: Result<(), String>) -> (r: Reply)
    ensures
        r.location is None,
        stored is Ok ==> r.status == 200 && r.body@ == Seq::<char>::empty(),
        stored matches Err(e) ==> r.status == 500 && r.body@ == "Could not apply cookies: "@ + e@,
{
    match stored {
        Ok(()) => Reply::new(200, String::new()),
        Err(e) => {
            let mut body = "Could not apply cookies: ".to_owned();
            body.append(e.as_str());
            Reply::new(500, body)
        },
    }
}

/// What `GET /logout` does: the reply, and whether to purge the session.
#[derive(Clone, Debug)]
pub struct LogoutDecision {
    pub reply: Reply,
    pub purge_session: bool,
}

/// What `GET /logout` does, given the e-mail read from the session: a
/// signed-in user's session is purged (200, "Logged out from {email}"); 401
/// when nobody is signed in; 500 with the failure's text when the session
/// cannot be read.
pub fn logout_decision(session_email: Result<Option<String>, String>) -> (d: LogoutDecision)
    ensures
        d.reply.location is None,
        d.purge_session <==> session_email matches Ok(Some(_)),
        session_email matches Ok(Some(email)) ==> d.reply.status == 200 && d.reply.body@
            == "Logged out from "@ + email@,
        session_email matches Ok(None) ==> d.reply.status == 401 && d.reply.body@
            == "You are not logged in"@,
        session_email matches Err(e) ==> d.reply.status == 500 && d.reply.body@ == e@,
{
    match session_email {
        Err(e) => LogoutDecision { reply: Reply::new(500, e), purge_session: false },
        Ok(None) => LogoutDecision {
            reply: Reply::new(401, "You are not logged in".to_owned()),
            purge_session: false,
        },
        Ok(Some(email)) => {
            let mut body = "Logged out from ".to_owned();
            body.append(email.as_str());
            LogoutDecision { reply: Reply::new(200, body), purge_session: true }
        },
    }
}

} // verus!
