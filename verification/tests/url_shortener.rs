use shorten_rs::dtos::ExpirationOptions;
use shorten_rs::services::url_shortener::{
    generate_id, reuse_or_mint, starts_with, ReuseOrMint, ShortenUrlError, ShortenedUrl,
    UrlShortenerService, ID_SIZE,
};
use shorten_rs::time::{now, TimeSpan, UnixTime};

fn service_with_blacklist(entries: Vec<&str>) -> UrlShortenerService<()> {
    UrlShortenerService::new((), entries.into_iter().map(String::from).collect())
}

fn as_pair(t: UnixTime) -> (i128, u32) {
    (t.secs, t.nanos)
}

#[test]
fn new_generates_five_char_alphanumeric_id() {
    let url = "https://example.com";
    let shortened = ShortenedUrl::new(url);
    assert_eq!(shortened.id.len(), ID_SIZE as usize);
    assert!(shortened.id.chars().all(|c| c.is_ascii_alphanumeric()));
    assert_eq!(shortened.full_url, url);
    assert_eq!(shortened.visits, 0);
}

#[test]
fn new_does_not_generate_a_constant_id() {
    let first = ShortenedUrl::new("https://example.com").id;
    let all_identical = (0..10)
        .map(|_| ShortenedUrl::new("https://example.com").id)
        .all(|id| id == first);
    assert!(!all_identical, "id generator appears to be constant");
}

#[test]
fn from_parts_sets_all_fields() {
    let expire_at = UnixTime::from_secs(1_700_000_000);
    let shortened = ShortenedUrl::from_parts(
        "abc12".to_string(),
        "https://example.com".to_string(),
        7u32,
        expire_at,
    );
    assert_eq!(shortened.id, "abc12");
    assert_eq!(shortened.full_url, "https://example.com");
    assert_eq!(shortened.visits, 7);
    assert_eq!(shortened.expire_at, expire_at);
}

#[test]
fn new_sets_expire_at_about_24_hours_in_the_future() {
    let day = TimeSpan::from_secs(24 * 3600);
    let before = now();
    let shortened = ShortenedUrl::new("https://example.com");
    let after = now();

    assert!(as_pair(shortened.expire_at) >= as_pair(before.later_by(day)));
    assert!(as_pair(shortened.expire_at) <= as_pair(after.later_by(day)));
}

#[test]
fn display_formats_as_id_colon_url() {
    let shortened = ShortenedUrl::from_parts(
        "abc12".to_string(),
        "https://example.com".to_string(),
        0u32,
        now(),
    );
    assert_eq!(shortened.to_string(), "abc12: https://example.com");
}

#[test]
fn blacklisted_url_error_displays_human_readable_message() {
    assert_eq!(
        ShortenUrlError::BlacklistedUrl.to_string(),
        "This url is blacklisted and cannot be shortened"
    );
}

#[test]
fn blacklisted_url_error_converts_to_400_response_with_message_body() {
    let reply = ShortenUrlError::BlacklistedUrl.into_reply();
    assert_eq!(reply.status, 400);
    assert_eq!(reply.body, "This url is blacklisted and cannot be shortened");
    assert!(reply.location.is_none());
}

#[test]
fn generated_ids_are_short_and_alphanumeric() {
    for _ in 0..20 {
        let id = generate_id();
        assert_eq!(id.chars().count(), 5);
        assert!(id.chars().all(|c| c.is_ascii_alphanumeric()));
        assert!(!id.contains('-'));
    }
}

#[test]
fn starts_with_compares_characters() {
    assert!(starts_with("https://mydomain.com/x", "https://mydomain.com"));
    assert!(starts_with("abc", ""));
    assert!(!starts_with("ab", "abc"));
    assert!(!starts_with("héllo", "hel"));
    assert!(starts_with("héllo", "hé"));
}

#[test]
fn is_blacklisted_matches_exact_url() {
    let service = service_with_blacklist(vec!["https://mydomain.com"]);

    assert!(service.is_blacklisted("https://mydomain.com"));
}

#[test]
fn is_blacklisted_matches_any_url_under_a_blacklisted_prefix() {
    let service = service_with_blacklist(vec!["https://mydomain.com"]);

    assert!(service.is_blacklisted("https://mydomain.com/abc12"));
    assert!(service.is_blacklisted("https://mydomain.com/path?ref=1"));
}

#[test]
fn is_blacklisted_is_false_for_unrelated_urls() {
    let service = service_with_blacklist(vec!["https://mydomain.com"]);

    assert!(!service.is_blacklisted("https://example.com"));
    // A different scheme is a different prefix and must not match.
    assert!(!service.is_blacklisted("http://mydomain.com"));
}

#[test]
fn is_blacklisted_is_always_false_with_an_empty_blacklist() {
    let service = service_with_blacklist(vec![]);

    assert!(!service.is_blacklisted("https://mydomain.com"));
    assert!(!service.is_blacklisted("anything-at-all"));
}

#[test]
fn is_blacklisted_checks_every_configured_entry() {
    let service = service_with_blacklist(vec![
        "http://localhost:8080",
        "https://localhost:8080",
        "http://localhost:5173",
        "https://localhost:5173",
    ]);

    assert!(service.is_blacklisted("https://localhost:5173/dashboard"));
    assert!(service.is_blacklisted("http://localhost:8080/shorten"));
    assert!(!service.is_blacklisted("https://localhost:3000"));
}

#[test]
fn shorten_url_rejects_a_blacklisted_url() {
    let service = service_with_blacklist(vec!["https://mydomain.com"]);

    let err = service
        .prepare_shortened_url("https://mydomain.com/self", ExpirationOptions::Hour)
        .expect_err("shortening a blacklisted url should fail");
    assert_eq!(err, ShortenUrlError::BlacklistedUrl);
}

#[test]
fn shorten_url_allows_urls_outside_the_blacklist() {
    let service = service_with_blacklist(vec!["https://mydomain.com"]);

    let entry = service
        .prepare_shortened_url("https://example.com", ExpirationOptions::Hour)
        .expect("a url outside the blacklist should be shortenable");
    assert_eq!(entry.id.len(), 5);
    assert_eq!(entry.full_url, "https://example.com");
    assert_eq!(entry.visits, 0);
}

#[test]
fn prepared_entries_expire_after_their_lifetime() {
    let service = service_with_blacklist(vec![]);
    let week = TimeSpan::from_secs(7 * 24 * 3600);
    let before = now();
    let entry = service
        .prepare_shortened_url("https://example.com", ExpirationOptions::Week)
        .unwrap();
    let after = now();
    assert!(as_pair(entry.expire_at) >= as_pair(before.later_by(week)));
    assert!(as_pair(entry.expire_at) <= as_pair(after.later_by(week)));

    let never = service
        .prepare_shortened_url("https://example.com", ExpirationOptions::Never)
        .unwrap();
    assert!(never.expire_at.secs > u64::MAX as i128);
}

#[test]
fn two_preparations_of_one_url_mint_two_ids() {
    let service = service_with_blacklist(vec![]);
    let ids: Vec<String> = (0..5)
        .map(|_| {
            service
                .prepare_shortened_url("https://example.com", ExpirationOptions::Hour)
                .unwrap()
                .id
        })
        .collect();
    assert!(ids.iter().any(|id| id != &ids[0]));
}

#[test]
fn rows_keep_whole_seconds_cut_to_32_bits() {
    let entry = ShortenedUrl::from_parts(
        "abc12".to_string(),
        "https://example.com".to_string(),
        3,
        UnixTime {
            secs: (1i128 << 32) + 5,
            nanos: 7,
        },
    );
    let row = entry.to_row();
    assert_eq!(row.id, "abc12");
    assert_eq!(row.full_url, "https://example.com");
    assert_eq!(row.visits, 3);
    assert_eq!(row.expire_at, 5);
}

#[test]
fn stored_entries_read_back_unchanged() {
    let entry = ShortenedUrl::from_parts(
        "alive".to_string(),
        "https://alive.example".to_string(),
        2,
        UnixTime::from_secs(1_700_000_000),
    );
    let row = entry.to_row();
    let back = ShortenedUrl::from_record(
        row.id,
        row.full_url,
        row.visits as i64,
        row.expire_at as i64,
    );
    assert_eq!(back.id, entry.id);
    assert_eq!(back.full_url, entry.full_url);
    assert_eq!(back.visits, entry.visits);
    assert_eq!(back.expire_at, entry.expire_at);
}

#[test]
fn records_cut_the_visit_count_to_32_bits() {
    let back = ShortenedUrl::from_record("x".to_string(), "y".to_string(), (1i64 << 32) + 9, 0);
    assert_eq!(back.visits, 9);
    assert_eq!(back.expire_at, UnixTime::from_secs(0));
}

#[test]
fn service_hands_back_its_pool() {
    let service = UrlShortenerService::new(42u8, vec![]);
    assert_eq!(*service.db_pool(), 42);
}

#[test]
fn own_domains_are_blacklisted_under_both_schemes() {
    let urls = shorten_rs::services::url_shortener::blacklist_for_domains(&vec![
        "api.example".to_string(),
        "www.example".to_string(),
    ]);
    assert_eq!(
        urls,
        vec![
            "http://api.example",
            "https://api.example",
            "http://www.example",
            "https://www.example"
        ]
    );
    let service = UrlShortenerService::new((), urls);
    assert!(service.is_blacklisted("https://www.example/abc12"));
    assert!(!service.is_blacklisted("https://example.com"));
}

#[test]
fn fresh_entries_expire_exactly_their_lifetime_after_creation() {
    let created_at = UnixTime {
        secs: 1_700_000_000,
        nanos: 900_000_000,
    };
    let custom = TimeSpan {
        secs: 10,
        nanos: 200_000_000,
    };
    let entry = ShortenedUrl::fresh(
        "abc12".to_string(),
        "https://example.com",
        created_at,
        ExpirationOptions::Custom(custom),
    );
    assert_eq!(entry.id, "abc12");
    assert_eq!(entry.full_url, "https://example.com");
    assert_eq!(entry.visits, 0);
    assert_eq!(
        entry.expire_at,
        UnixTime {
            secs: 1_700_000_011,
            nanos: 100_000_000
        }
    );
    let hour = ShortenedUrl::fresh("abc12".to_string(), "u", created_at, ExpirationOptions::Hour);
    assert_eq!(hour.expire_at.secs, 1_700_003_600);
    let never = ShortenedUrl::fresh("abc12".to_string(), "u", created_at, ExpirationOptions::Never);
    assert_eq!(
        never.expire_at,
        UnixTime {
            secs: 1_700_000_000 + u64::MAX as i128 + 1,
            nanos: 899_999_999
        }
    );
}

fn entry_expiring_at(id: &str, secs: i128) -> ShortenedUrl {
    ShortenedUrl::from_parts(
        id.to_string(),
        "https://expired.example".to_string(),
        0,
        UnixTime::from_secs(secs),
    )
}

#[test]
fn find_by_id_hides_an_expired_url() {
    let at = UnixTime::from_secs(1_700_000_000);
    let expired = entry_expiring_at("exprd", 1_700_000_000 - 60);
    assert!(!expired.is_live(at));
    assert!(shorten_rs::services::url_shortener::first_live(vec![expired], at).is_none());
}

#[test]
fn find_by_id_returns_a_not_yet_expired_url() {
    let at = UnixTime::from_secs(1_700_000_000);
    let alive = entry_expiring_at("alive", 1_700_000_000 + 3600);
    assert!(alive.is_live(at));
    let found = shorten_rs::services::url_shortener::first_live(vec![alive], at)
        .expect("a url that has not expired must still be returned");
    assert_eq!(found.id, "alive");
}

#[test]
fn the_first_live_entry_is_returned_past_expired_ones() {
    let at = UnixTime {
        secs: 1_700_000_000,
        nanos: 500,
    };
    let candidates = vec![
        entry_expiring_at("exp-d", 1_700_000_000),
        entry_expiring_at("ttl-a", 1_700_000_001),
        entry_expiring_at("ttl-b", 1_700_000_002),
    ];
    let found = shorten_rs::services::url_shortener::first_live(candidates, at).unwrap();
    assert_eq!(found.id, "ttl-a");
}

#[test]
fn entries_expiring_before_the_epoch_are_never_live_after_it() {
    let old = entry_expiring_at("old-1", -5);
    assert!(!old.is_live(UnixTime::from_secs(0)));
    assert!(old.is_live(UnixTime::from_secs(-6)));
}

#[test]
fn a_visit_adds_one_to_the_stored_count() {
    assert_eq!(ShortenedUrl::count_visit(0), Some(1));
    assert_eq!(ShortenedUrl::count_visit(41), Some(42));
    assert_eq!(ShortenedUrl::count_visit(i64::MAX), None);
}

#[test]
fn n_visits_add_n_to_the_stored_count() {
    let mut stored = 7i64;
    for _ in 0..5 {
        stored = ShortenedUrl::count_visit(stored).unwrap();
    }
    assert_eq!(stored, 12);
    let back = ShortenedUrl::from_record("abc12".to_string(), "u".to_string(), stored, 0);
    assert_eq!(back.visits, 12);
}

#[test]
fn shorten_url_deduplicates_identical_urls() {
    let first = reuse_or_mint("https://example.com", None);
    let minted = match &first {
        ReuseOrMint::Mint(u) => u.clone(),
        ReuseOrMint::Reuse(_) => panic!("nothing was stored yet"),
    };
    assert_eq!(minted.full_url, "https://example.com");
    assert_eq!(minted.visits, 0);
    assert_eq!(first.id(), &minted.id);
    assert_eq!(minted.id.len(), ID_SIZE as usize);

    let second = reuse_or_mint("https://example.com", Some(minted.id.clone()));
    assert_eq!(
        second.id(),
        first.id(),
        "shortening the same url twice should return the same id"
    );
    assert!(matches!(second, ReuseOrMint::Reuse(_)));
}
