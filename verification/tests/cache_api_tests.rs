use oddatui::api::{outrights_cache_key, outrights_url, sports_cache_key, sports_url};
use oddatui::cache::{Cache, CACHE_TTL_NANOS, CACHE_TTL_SECS};
use oddatui::models::Sport;

const SEC: i128 = 1_000_000_000;

#[test]
fn cache_file_names() {
    assert_eq!(Cache::file_name("sports"), "sports.json");
    assert_eq!(Cache::file_name("outrights_soccer_epl"), "outrights_soccer_epl.json");
    let cache = Cache::new("/tmp/oddatui".to_string());
    assert_eq!(cache.dir(), "/tmp/oddatui");
}

#[test]
fn cache_ttl_is_twelve_hours() {
    assert_eq!(CACHE_TTL_SECS, 43200);
    assert_eq!(CACHE_TTL_NANOS, 43200 * SEC);
}

#[test]
fn freshness_boundaries() {
    let now = 1_700_000_000 * SEC;
    assert!(Cache::is_fresh(Some(now), now));
    assert!(Cache::is_fresh(Some(now - 43199 * SEC), now));
    assert!(Cache::is_fresh(Some(now - CACHE_TTL_NANOS + 1), now));
    assert!(!Cache::is_fresh(Some(now - CACHE_TTL_NANOS), now));
    assert!(!Cache::is_fresh(Some(now - 86400 * SEC), now));
    assert!(!Cache::is_fresh(Some(now + 1), now));
    assert!(!Cache::is_fresh(None, now));
    assert!(Cache::is_fresh(Some(i128::MIN), i128::MIN));
    assert!(!Cache::is_fresh(Some(i128::MIN), i128::MAX));
}

#[test]
fn cache_keys() {
    assert_eq!(sports_cache_key(), "sports");
    assert_eq!(outrights_cache_key("soccer_italy_serie_a_winner"), "outrights_soccer_italy_serie_a_winner");
}

#[test]
fn service_addresses() {
    assert_eq!(sports_url("KEY"), "https://api.the-odds-api.com/v4/sports/?apiKey=KEY");
    assert_eq!(
        outrights_url("tennis_atp_wimbledon", "KEY"),
        "https://api.the-odds-api.com/v4/sports/tennis_atp_wimbledon/odds/?apiKey=KEY&regions=eu&markets=outrights"
    );
}

#[test]
fn sport_holds_its_fields() {
    let s = Sport {
        key: "soccer".to_string(),
        active: true,
        group: "Soccer".to_string(),
        description: "Football".to_string(),
        title: "Calcio".to_string(),
        has_outrights: false,
    };
    assert_eq!(s.key, "soccer");
    assert!(s.active && !s.has_outrights);
}
