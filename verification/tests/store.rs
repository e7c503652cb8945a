use yaus::store::{Error, Store, Url};

fn mapping(short: &str, target: &str) -> Url {
    Url { short: short.to_string(), target_url: target.to_string() }
}

#[test]
fn create_then_fetch_round_trip() {
    let mut store = Store::new();
    let created = store.create_url(&mapping("docs", "http://example.com/documentation"));
    assert!(created.is_ok());
    let fetched = store.get_url("docs").unwrap();
    assert_eq!(fetched.short, "docs");
    assert_eq!(fetched.target_url, "http://example.com/documentation");
}

#[test]
fn duplicate_create_conflicts_and_keeps_original() {
    let mut store = Store::new();
    assert!(store.create_url(&mapping("a", "http://first.example")).is_ok());
    let second = store.create_url(&mapping("a", "http://second.example"));
    assert!(matches!(second, Err(Error::ShortExists)));
    let fetched = store.get_url("a").unwrap();
    assert_eq!(fetched.target_url, "http://first.example");
}

#[test]
fn absent_short_fails_everywhere() {
    let mut store = Store::new();
    assert!(matches!(store.get_url("nope"), Err(Error::ShortDoesNotExist)));
    assert!(matches!(store.delete_url("nope"), Err(Error::ShortDoesNotExist)));
}

#[test]
fn repeated_delete_keeps_failing() {
    let mut store = Store::new();
    assert!(store.create_url(&mapping("gone", "http://example.com")).is_ok());
    assert!(store.delete_url("gone").is_ok());
    assert!(matches!(store.delete_url("gone"), Err(Error::ShortDoesNotExist)));
    assert!(matches!(store.delete_url("gone"), Err(Error::ShortDoesNotExist)));
    assert!(matches!(store.get_url("gone"), Err(Error::ShortDoesNotExist)));
}

#[test]
fn racing_creates_exactly_one_wins() {
    let mut store = Store::new();
    let targets = ["http://t0", "http://t1", "http://t2", "http://t3", "http://t4"];
    let mut successes = 0;
    let mut conflicts = 0;
    for target in targets {
        match store.create_url(&mapping("race", target)) {
            Ok(()) => successes += 1,
            Err(Error::ShortExists) => conflicts += 1,
            Err(other) => panic!("unexpected outcome: {:?}", other),
        }
    }
    assert_eq!(successes, 1);
    assert_eq!(conflicts, targets.len() - 1);
    assert_eq!(store.get_url("race").unwrap().target_url, "http://t0");
}

#[test]
fn delete_frees_the_short_id_for_reuse() {
    let mut store = Store::new();
    assert!(store.create_url(&mapping("r", "http://old.example")).is_ok());
    assert!(store.delete_url("r").is_ok());
    assert!(store.create_url(&mapping("r", "http://new.example")).is_ok());
    assert_eq!(store.get_url("r").unwrap().target_url, "http://new.example");
}

#[test]
fn list_respects_the_limit_and_keeps_order() {
    let mut store = Store::new();
    for i in 0..3 {
        let short = format!("s{i}");
        let target = format!("http://example.com/{i}");
        assert!(store.create_url(&mapping(&short, &target)).is_ok());
    }
    assert!(store.list_urls(0).is_empty());
    let two = store.list_urls(2);
    assert_eq!(two.len(), 2);
    assert_eq!(two[0].short, "s0");
    assert_eq!(two[1].short, "s1");
    let all = store.list_urls(u32::MAX);
    assert_eq!(all.len(), 3);
    assert_eq!(all[2].target_url, "http://example.com/2");
}
