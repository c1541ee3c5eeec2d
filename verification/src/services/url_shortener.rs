//! Shortened urls: their short ids, lifetimes, storage rows, and the
//! service that decides whether a url may be shortened.
use vstd::prelude::*;
use vstd::string::*;

use crate::controller::Reply;
use crate::dtos::ExpirationOptions;
use crate::time::{is_clock_reading, now, TimeSpan, UnixTime};

verus! {

/// Number of characters of a short id.
pub const ID_SIZE: u8 = 5;

/// `c` is an ASCII letter or digit.
pub open spec fn is_ascii_alphanumeric(c: char) -> bool {
    ||| 'a' <= c && c <= 'z'
    ||| 'A' <= c && c <= 'Z'
    ||| '0' <= c && c <= '9'
}

/// A short id: `ID_SIZE` ASCII letters and digits.
pub open spec fn is_short_id(id: Seq<char>) -> bool {
    &&& id.len() == ID_SIZE
    &&& forall|i: int| 0 <= i < id.len() ==> #[trigger] is_ascii_alphanumeric(id[i])
}

/// Calls `rand::distr::Alphanumeric.sample_string` with the thread-local
/// generator `rand::rng()`. The crate appends `len` bytes drawn from
/// `A-Z`, `a-z` and `0-9`; which ones is left to chance, so only the length
/// and the alphabet are claimed. `rand::rng()` panics when the operating
/// system cannot seed it, a failure of the environment that no input causes
/// and that is left aside here.
#[verifier::external_body]
fn sample_alphanumeric(len: usize) -> (s: String)
    ensures
        s@.len() == len,
        forall|i: int| 0 <= i < s@.len() ==> #[trigger] is_ascii_alphanumeric(s@[i]),
{
    rand::distr::SampleString::sample_string(&rand::distr::Alphanumeric, &mut rand::rng(), len)
}

/// A fresh random short id.
pub fn generate_id() -> (id: String)
    ensures
        is_short_id(id@),
{
    sample_alphanumeric(ID_SIZE as usize)
}

/// A url that was shortened under `id`, how often its short link was
/// followed, and the instant (since the UNIX epoch) after which it is gone.
#[derive(Clone, Debug)]
pub struct ShortenedUrl {
    pub id: String,
    pub full_url: String,
    pub visits: u32,
    pub expire_at: UnixTime,
}

/// The values a shortened url is stored under: its id, url, visit count and
/// the whole seconds of its expiry, cut to 32 bits.
#[derive(Clone, Debug)]
pub struct ShortenedUrlRow {
    pub id: String,
    pub full_url: String,
    pub visits: u32,
    pub expire_at: u32,
}

impl ShortenedUrl {
    /// A fresh entry for `url` under the id `id`, created at `created_at`:
    /// no visits yet, expiring `expire_in` later.
    pub open spec fn spec_fresh(
        id: Seq<char>,
        url: Seq<char>,
        created_at: UnixTime,
        expire_in: ExpirationOptions,
        u: ShortenedUrl,
    ) -> bool {
        &&& u.id@ == id
        &&& u.full_url@ == url
        &&& u.visits == 0
        &&& u.expire_at == created_at.spec_later_by(expire_in.spec_span())
    }

    /// The entry `id` stands for when `url` is shortened at `created_at`
    /// with lifetime `expire_in`: no visits yet, expiring `expire_in` after
    /// `created_at`. The expiry's seconds must fit an `i128` (`requires`).
    pub fn fresh(id: String, url: &str, created_at: UnixTime, expire_in: ExpirationOptions) -> (u:
        ShortenedUrl)
        requires
            created_at.wf(),
            expire_in.spec_span().wf(),
            created_at.secs + expire_in.spec_span().secs + 1 <= i128::MAX,
        ensures
            ShortenedUrl::spec_fresh(id@, url@, created_at, expire_in, u),
    {
        let expire_at = created_at.later_by(expire_in.into_time_span());
        ShortenedUrl { id, full_url: url.to_owned(), visits: 0, expire_at }
    }

    /// A new entry for `url` with a fresh random id, no visits, expiring
    /// `expire_in` after the current instant.
    pub fn expiring_in(url: &str, expire_in: ExpirationOptions) -> (u: ShortenedUrl)
        requires
            expire_in.spec_span().wf(),
        ensures
            is_short_id(u.id@),
            exists|created_at: UnixTime|
                is_clock_reading(created_at) && #[trigger] ShortenedUrl::spec_fresh(
                    u.id@,
                    url@,
                    created_at,
                    expire_in,
                    u,
                ),
    {
        let id = generate_id();
        let created_at = now();
        let u = ShortenedUrl::fresh(id, url, created_at, expire_in);
        assert(ShortenedUrl::spec_fresh(u.id@, url@, created_at, expire_in, u));
        u
    }

    /// A new entry for `url` with a fresh random id and no visits, expiring
    /// one day after the current instant.
    pub fn new(url: &str) -> (u: ShortenedUrl)
        ensures
            is_short_id(u.id@),
            exists|created_at: UnixTime|
                is_clock_reading(created_at) && #[trigger] ShortenedUrl::spec_fresh(
                    u.id@,
                    url@,
                    created_at,
                    ExpirationOptions::Day,
                    u,
                ),
    {
        ShortenedUrl::expiring_in(url, ExpirationOptions::Day)
    }

    /// An entry made of the given parts.
    pub fn from_parts(id: String, full_url: String, visits: u32, expire_at: UnixTime) -> (u:
        ShortenedUrl)
        ensures
            u.id == id,
            u.full_url == full_url,
            u.visits == visits,
            u.expire_at == expire_at,
    {
        ShortenedUrl { id, full_url, visits, expire_at }
    }

    pub open spec fn spec_to_string(self) -> Seq<char> {
        self.id@ + ": "@ + self.full_url@
    }

    /// `"{id}: {full_url}"`.
    pub fn to_string(&self) -> (s: String)
        ensures
            s@ == self.spec_to_string(),
    {
        let mut s = self.id.clone();
        s.append(": ");
        s.append(self.full_url.as_str());
        s
    }

    /// The values the entry is stored under: the id, url and visit count as
    /// they are, and the whole seconds of the expiry cut to their low 32 bits.
    /// An expiry before the epoch has no such seconds (`requires`).
    pub fn to_row(&self) -> (row: ShortenedUrlRow)
        requires
            self.expire_at.secs >= 0,
        ensures
            row.id@ == self.id@,
            row.full_url@ == self.full_url@,
            row.visits == self.visits,
            row.expire_at == self.expire_at.secs as u32,
    {
        ShortenedUrlRow {
            id: self.id.clone(),
            full_url: self.full_url.clone(),
            visits: self.visits,
            expire_at: self.expire_at.secs as u32,
        }
    }

    /// An entry read back from storage, where the visit count and the expiry
    /// seconds come back as 64-bit integers. The count is cut to its low 32
    /// bits; an expiry before the epoch cannot be read (`requires`).
    pub fn from_record(id: String, full_url: String, visits: i64, expire_at: i64) -> (u:
        ShortenedUrl)
        requires
            expire_at >= 0,
        ensures
            u.id == id,
            u.full_url == full_url,
            u.visits == visits as u32,
            u.expire_at == (UnixTime { secs: expire_at as i128, nanos: 0 }),
    {
        ShortenedUrl {
            id,
            full_url,
            visits: visits as u32,
            expire_at: UnixTime::from_secs(expire_at as i128),
        }
    }
}

/// The stored visit count after one more visit: one more, or `None` when
/// that no longer fits the 64-bit integer the count is stored as.
pub open spec fn spec_count_visit(stored: i64) -> Option<i64> {
    if stored < i64::MAX {
        Some((stored + 1) as i64)
    } else {
        None
    }
}

/// The stored visit count after `n` visits counted one at a time, or `None`
/// once a step no longer fits.
pub open spec fn spec_count_visits(stored: i64, n: nat) -> Option<i64>
    decreases n,
{
    if n == 0 {
        Some(stored)
    } else {
        match spec_count_visit(stored) {
            Some(next) => spec_count_visits(next, (n - 1) as nat),
            None => None,
        }
    }
}

impl ShortenedUrl {
    /// The stored visit count of an entry once it is visited again:
    /// `stored + 1`, or `None` when that overflows the stored 64-bit integer.
    pub fn count_visit(stored: i64) -> (r: Option<i64>)
        ensures
            r == spec_count_visit(stored),
    {
        if stored < i64::MAX {
            Some(stored + 1)
        } else {
            None
        }
    }
}

/// Counting `n` visits one at a time raises a stored count by exactly `n`
/// while the result fits 64 bits; past that, counting fails.
pub proof fn lemma_visits_add_up(stored: i64, n: nat)
    ensures
        stored + n <= i64::MAX ==> spec_count_visits(stored, n) == Some((stored + n) as i64),
        stored + n > i64::MAX ==> spec_count_visits(stored, n) is None,
    decreases n,
{
    if n > 0 && stored < i64::MAX {
        lemma_visits_add_up((stored + 1) as i64, (n - 1) as nat);
    }
}

/// `u` is still reachable at the instant `at`: the whole seconds of its
/// expiry are after those of `at`.
pub open spec fn is_live_at(u: ShortenedUrl, at: UnixTime) -> bool {
    u.expire_at.secs > at.secs
}

impl ShortenedUrl {
    /// Whether the entry is still reachable at `at`: its expiry's whole
    /// seconds are after `at`'s.
    pub fn is_live(&self, at: UnixTime) -> (b: bool)
        ensures
            b == is_live_at(*self, at),
            b == (self.expire_at.secs > at.secs),
    {
        self.expire_at.secs > at.secs
    }
}

/// Whether an entry is reachable depends on its expiry alone: it is live
/// exactly when its expiry's whole seconds are after those of `at`, whatever
/// its id, url and visit count, so an entry followed any number of times
/// stays reachable until it expires.
pub proof fn lemma_liveness_is_expiry_only(u: ShortenedUrl, at: UnixTime, visits: u32)
    ensures
        is_live_at(u, at) <==> u.expire_at.secs > at.secs,
        is_live_at(u, at) == is_live_at(
            ShortenedUrl { id: u.id, full_url: u.full_url, visits, expire_at: u.expire_at },
            at,
        ),
{
}

/// A lookup hides exactly the expired entries: when the first candidate has
/// not expired at `at`, it is the one found; when none is live, nothing is.
pub proof fn lemma_first_live_finds_unexpired(
    candidates: Seq<ShortenedUrl>,
    at: UnixTime,
    found: Option<ShortenedUrl>,
)
    requires
        found is None <==> forall|i: int|
            0 <= i < candidates.len() ==> !is_live_at(#[trigger] candidates[i], at),
        found matches Some(u) ==> exists|i: int|
            0 <= i < candidates.len() && u == #[trigger] candidates[i] && is_live_at(u, at)
                && forall|j: int| 0 <= j < i ==> !is_live_at(#[trigger] candidates[j], at),
    ensures
        candidates.len() > 0 && candidates[0].expire_at.secs > at.secs ==> found == Some(
            candidates[0],
        ),
        (forall|i: int|
            0 <= i < candidates.len() ==> (#[trigger] candidates[i]).expire_at.secs <= at.secs)
            ==> found is None,
{
    if candidates.len() > 0 && candidates[0].expire_at.secs > at.secs {
        assert(is_live_at(candidates[0], at));
        let u = found->Some_0;
        let i = choose|i: int|
            0 <= i < candidates.len() && u == #[trigger] candidates[i] && is_live_at(u, at)
                && forall|j: int| 0 <= j < i ==> !is_live_at(#[trigger] candidates[j], at);
        if i > 0 {
            assert(!is_live_at(candidates[0], at));
        }
    }
}

/// The first of `candidates` that is still reachable at `at`, if any: how an
/// entry is looked up, with expired entries hidden.
pub fn first_live(candidates: Vec<ShortenedUrl>, at: UnixTime) -> (r: Option<ShortenedUrl>)
    ensures
        r is None <==> forall|i: int|
            0 <= i < candidates@.len() ==> !is_live_at(#[trigger] candidates@[i], at),
        r matches Some(u) ==> exists|i: int|
            0 <= i < candidates@.len() && u == #[trigger] candidates@[i] && is_live_at(u, at)
                && forall|j: int| 0 <= j < i ==> !is_live_at(#[trigger] candidates@[j], at),
{
    let mut rows = candidates;
    let n = rows.len();
    let mut i: usize = 0;
    while i < n
        invariant
            rows@ == candidates@,
            n == candidates@.len(),
            i <= n,
            forall|j: int| 0 <= j < i ==> !is_live_at(#[trigger] candidates@[j], at),
        decreases n - i,
    {
        if rows[i].is_live(at) {
            let u = rows.remove(i);
            assert(u == candidates@[i as int]);
            return Some(u);
        }
        i = i + 1;
    }
    None
}

/// What a request to shorten a url does when an entry already stored for
/// that url is reused: hand back the stored entry's id, or store a new entry
/// and hand back its id.
#[derive(Clone, Debug)]
pub enum ReuseOrMint {
    Reuse(String),
    Mint(ShortenedUrl),
}

impl ReuseOrMint {
    /// The id handed back.
    pub open spec fn spec_id(self) -> Seq<char> {
        match self {
            ReuseOrMint::Reuse(id) => id@,
            ReuseOrMint::Mint(u) => u.id@,
        }
    }

    /// The id handed back.
    pub fn id(&self) -> (s: &String)
        ensures
            s@ == self.spec_id(),
    {
        match self {
            ReuseOrMint::Reuse(id) => id,
            ReuseOrMint::Mint(u) => &u.id,
        }
    }
}

/// Shortening `url` so that a url gets one id: `existing_id` is the id of
/// the live entry stored for `url`, if there is one. That id is handed back
/// and nothing new is stored; without one, a new entry for `url` (random id,
/// no visits, expiring one day from now) is to be stored.
pub fn reuse_or_mint(url: &str, existing_id: Option<String>) -> (r: ReuseOrMint)
    ensures
        existing_id matches Some(id) ==> r == ReuseOrMint::Reuse(id),
        existing_id is None ==> (r matches ReuseOrMint::Mint(u) && {
            &&& is_short_id(u.id@)
            &&& exists|created_at: UnixTime|
                is_clock_reading(created_at) && #[trigger] ShortenedUrl::spec_fresh(
                    u.id@,
                    url@,
                    created_at,
                    ExpirationOptions::Day,
                    u,
                )
        }),
{
    match existing_id {
        Some(id) => ReuseOrMint::Reuse(id),
        None => ReuseOrMint::Mint(ShortenedUrl::new(url)),
    }
}

/// Why a url was not shortened.
#[derive(Clone, Copy, Debug, PartialEq, Eq, Structural)]
pub enum ShortenUrlError {
    BlacklistedUrl,
}

impl ShortenUrlError {
    pub open spec fn spec_to_string(self) -> Seq<char> {
        match self {
            ShortenUrlError::BlacklistedUrl => "This url is blacklisted and cannot be shortened"@,
        }
    }

    /// The message shown for the error.
    pub fn to_string(&self) -> (s: String)
        ensures
            s@ == self.spec_to_string(),
    {
        match self {
            ShortenUrlError::BlacklistedUrl => "This url is blacklisted and cannot be shortened".to_owned(),
        }
    }

    /// The reply for the error: 400 Bad Request with the message as body.
    pub fn into_reply(self) -> (r: Reply)
        ensures
            r.status == 400,
            r.body@ == self.spec_to_string(),
            r.location is None,
    {
        Reply { status: 400, body: self.to_string(), location: None }
    }
}

/// `prefix` is a prefix of `s`.
pub open spec fn is_prefix_of(prefix: Seq<char>, s: Seq<char>) -> bool {
    prefix.len() <= s.len() && s.subrange(0, prefix.len() as int) == prefix
}

/// Whether `s` starts with `prefix`.
pub fn starts_with(s: &str, prefix: &str) -> (b: bool)
    ensures
        b == is_prefix_of(prefix@, s@),
{
    let prefix_len = prefix.unicode_len();
    let s_len = s.unicode_len();
    if prefix_len > s_len {
        return false;
    }
    let mut i: usize = 0;
    while i < prefix_len
        invariant
            prefix_len == prefix@.len(),
            s_len == s@.len(),
            prefix_len <= s_len,
            i <= prefix_len,
            forall|j: int| 0 <= j < i ==> prefix@[j] == s@[j],
        decreases prefix_len - i,
    {
        if prefix.get_char(i) != s.get_char(i) {
            assert(s@.subrange(0, prefix@.len() as int)[i as int] != prefix@[i as int]);
            return false;
        }
        i = i + 1;
    }
    assert(s@.subrange(0, prefix@.len() as int) =~= prefix@);
    true
}

/// Some entry of `blacklist` is a prefix of `url`.
pub open spec fn blacklist_matches(blacklist: Seq<Seq<char>>, url: Seq<char>) -> bool {
    exists|i: int| 0 <= i < blacklist.len() && is_prefix_of(#[trigger] blacklist[i], url)
}

/// No url is blacklisted by an empty blacklist.
pub proof fn lemma_empty_blacklist_refuses_nothing(url: Seq<char>)
    ensures
        !blacklist_matches(Seq::empty(), url),
{
}

/// A blacklisted entry is itself blacklisted, and so is every url that
/// extends a blacklisted url (paths and queries under a blacklisted origin).
pub proof fn lemma_blacklist_covers_extensions(
    blacklist: Seq<Seq<char>>,
    url: Seq<char>,
    suffix: Seq<char>,
)
    ensures
        blacklist.contains(url) ==> blacklist_matches(blacklist, url),
        blacklist_matches(blacklist, url) ==> blacklist_matches(blacklist, url + suffix),
{
    if blacklist.contains(url) {
        let i = choose|i: int| 0 <= i < blacklist.len() && blacklist[i] == url;
        assert(url.subrange(0, url.len() as int) =~= url);
        assert(is_prefix_of(blacklist[i], url));
    }
    if blacklist_matches(blacklist, url) {
        let i = choose|i: int| 0 <= i < blacklist.len() && is_prefix_of(#[trigger] blacklist[i], url);
        let p = blacklist[i];
        assert((url + suffix).subrange(0, p.len() as int) =~= url.subrange(0, p.len() as int));
        assert(is_prefix_of(blacklist[i], url + suffix));
    }
}

/// A short id never equals a string holding a character that is not an
/// ASCII letter or digit, such as `-`.
pub proof fn lemma_short_id_differs_from_non_alphanumeric(id: Seq<char>, other: Seq<char>, i: int)
    requires
        is_short_id(id),
        0 <= i < other.len(),
        !is_ascii_alphanumeric(other[i]),
    ensures
        id != other,
{
    if id == other {
        assert(is_ascii_alphanumeric(id[i]));
    }
}

/// A fresh entry expires exactly its lifetime after its creation, so
/// never before it was created.
pub proof fn lemma_fresh_entry_expiry(
    id: Seq<char>,
    url: Seq<char>,
    created_at: UnixTime,
    expire_in: ExpirationOptions,
    u: ShortenedUrl,
)
    requires
        ShortenedUrl::spec_fresh(id, url, created_at, expire_in, u),
        created_at.wf(),
        expire_in.spec_span().wf(),
        created_at.secs + expire_in.spec_span().secs + 1 <= i128::MAX,
    ensures
        u.expire_at.wf(),
        u.expire_at.total_nanos() == created_at.total_nanos() + expire_in.spec_span().total_nanos(),
        u.expire_at.total_nanos() >= created_at.total_nanos(),
{
    created_at.lemma_later_by_adds(expire_in.spec_span());
}

/// An entry whose expiry lies between the epoch and 2106 reads back as the
/// whole second of its expiry: the visit count and the expiry seconds
/// written as 32-bit values come back as the same 64-bit integers, which
/// `from_record` turns into the same count and the expiry cut to its
/// second.
pub proof fn lemma_stored_entry_reads_back(u: ShortenedUrl)
    requires
        0 <= u.expire_at.secs <= u32::MAX,
    ensures
        ((u.visits as i64) as u32) == u.visits,
        (u.expire_at.secs as u32) as i64 >= 0,
        (UnixTime { secs: ((u.expire_at.secs as u32) as i64) as i128, nanos: 0 }) == (UnixTime {
            secs: u.expire_at.secs,
            nanos: 0,
        }),
{
}

/// The blacklist that keeps the service's own domains from being
/// shortened: for each domain, its `http://` and its `https://` url.
pub open spec fn spec_blacklist_for_domains(domains: Seq<Seq<char>>) -> Seq<Seq<char>>
    decreases domains.len(),
{
    if domains.len() == 0 {
        Seq::empty()
    } else {
        spec_blacklist_for_domains(domains.drop_last()) + seq![
            "http://"@ + domains.last(),
            "https://"@ + domains.last(),
        ]
    }
}

/// The `http://` and `https://` urls of each domain, in order.
pub fn blacklist_for_domains(domains: &Vec<String>) -> (urls: Vec<String>)
    ensures
        urls@.map_values(|u: String| u@) == spec_blacklist_for_domains(
            domains@.map_values(|d: String| d@),
        ),
{
    let mut urls: Vec<String> = Vec::new();
    let n = domains.len();
    let mut i: usize = 0;
    while i < n
        invariant
            n == domains@.len(),
            i <= n,
            urls@.map_values(|u: String| u@) == spec_blacklist_for_domains(
                domains@.map_values(|d: String| d@).take(i as int),
            ),
        decreases n - i,
    {
        let ghost all = domains@.map_values(|d: String| d@);
        let ghost before = urls@.map_values(|u: String| u@);
        let mut http = "http://".to_owned();
        http.append(domains[i].as_str());
        let mut https = "https://".to_owned();
        https.append(domains[i].as_str());
        urls.push(http);
        urls.push(https);
        proof {
            assert(all.take(i + 1).drop_last() =~= all.take(i as int));
            assert(all.take(i + 1).last() == domains@[i as int]@);
            assert(urls@.map_values(|u: String| u@) =~= before + seq![
                "http://"@ + domains@[i as int]@,
                "https://"@ + domains@[i as int]@,
            ]);
        }
        i = i + 1;
    }
    proof {
        assert(domains@.map_values(|d: String| d@).take(n as int) =~= domains@.map_values(
            |d: String| d@,
        ));
    }
    urls
}

/// The url-shortening service: the database it stores entries in and the
/// url prefixes it refuses to shorten.
#[derive(Clone, Debug)]
pub struct UrlShortenerService<Pool> {
    db_pool: Pool,
    blacklisted_urls: Vec<String>,
}

impl<Pool> UrlShortenerService<Pool> {
    /// The refused prefixes.
    pub closed spec fn blacklist(&self) -> Seq<Seq<char>> {
        self.blacklisted_urls@.map_values(|s: String| s@)
    }

    pub closed spec fn spec_db_pool(&self) -> Pool {
        self.db_pool
    }

    pub fn new(db_pool: Pool, blacklisted_urls: Vec<String>) -> (s: Self)
        ensures
            s.spec_db_pool() == db_pool,
            s.blacklist() == blacklisted_urls@.map_values(|u: String| u@),
    {
        UrlShortenerService { db_pool, blacklisted_urls }
    }

    /// The database the entries live in.
    pub fn db_pool(&self) -> (p: &Pool)
        ensures
            *p == self.spec_db_pool(),
    {
        &self.db_pool
    }

    /// Whether `url` starts with one of the blacklisted prefixes.
    pub fn is_blacklisted(&self, url: &str) -> (b: bool)
        ensures
            b == blacklist_matches(self.blacklist(), url@),
    {
        let n = self.blacklisted_urls.len();
        let mut i: usize = 0;
        while i < n
            invariant
                n == self.blacklisted_urls@.len(),
                i <= n,
                forall|j: int|
                    0 <= j < i ==> !is_prefix_of(#[trigger] self.blacklist()[j], url@),
            decreases n - i,
        {
            if starts_with(url, self.blacklisted_urls[i].as_str()) {
                assert(self.blacklist()[i as int] == self.blacklisted_urls@[i as int]@);
                return true;
            }
            assert(self.blacklist()[i as int] == self.blacklisted_urls@[i as int]@);
            i = i + 1;
        }
        false
    }

    /// The entry to store for a request to shorten `url`: refused when
    /// `url` is blacklisted, otherwise a fresh entry with a random id and no
    /// visits that expires `expire_in` from now.
    pub fn prepare_shortened_url(&self, url: &str, expire_in: ExpirationOptions) -> (r: Result<
        ShortenedUrl,
        ShortenUrlError,
    >)
        requires
            expire_in.spec_span().wf(),
        ensures
            r is Err <==> blacklist_matches(self.blacklist(), url@),
            r matches Err(e) ==> e == ShortenUrlError::BlacklistedUrl,
            r matches Ok(u) ==> {
                &&& is_short_id(u.id@)
                &&& exists|created_at: UnixTime|
                    is_clock_reading(created_at) && #[trigger] ShortenedUrl::spec_fresh(
                        u.id@,
                        url@,
                        created_at,
                        expire_in,
                        u,
                    )
            },
    {
        if self.is_blacklisted(url) {
            return Err(ShortenUrlError::BlacklistedUrl);
        }
        Ok(ShortenedUrl::expiring_in(url, expire_in))
    }
}

} // verus!
