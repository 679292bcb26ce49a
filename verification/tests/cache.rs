use sm_cache::lock::{clear_lock_if_required, lock_file_path, Lock, LockState, LOCK_FILE};
use sm_cache::metadata::{
    browser_metadata_at, create_browser_metadata, create_driver_metadata, driver_metadata_at,
    get_browser_version_from_metadata, get_driver_version_from_metadata, get_metadata,
    get_metadata_path, new_metadata, now_unix_timestamp, Browser, Driver, Metadata,
    METADATA_FILE, TTL_BROWSERS_SEC, TTL_DRIVERS_SEC,
};

fn browser(name: &str, version: &str, ttl: u64) -> Browser {
    Browser {
        browser_name: name.to_string(),
        browser_version: version.to_string(),
        browser_ttl: ttl,
    }
}

fn driver(browser_version: &str, name: &str, version: &str, ttl: u64) -> Driver {
    Driver {
        browser_version: browser_version.to_string(),
        driver_name: name.to_string(),
        driver_version: version.to_string(),
        driver_ttl: ttl,
    }
}

#[test]
fn empty_or_missing_cache_loads_as_empty_store() {
    let m = get_metadata(None, 1_700_000_000);
    assert!(m.browsers.is_empty());
    assert!(m.drivers.is_empty());
}

#[test]
fn unparseable_cache_content_loads_as_empty_store() {
    // The application maps a file whose content does not parse to `None`,
    // exactly as it maps an absent file; the load itself never errors.
    let m = get_metadata(None, 0);
    assert_eq!(m, new_metadata());
}

#[test]
fn fresh_store_survives_persist_and_load_unchanged() {
    let now: u64 = 1_700_000_000;
    let store = Metadata {
        browsers: vec![
            browser("chrome", "115", now + 1),
            browser("firefox", "118", now + 500),
        ],
        drivers: vec![
            driver("115", "chromedriver", "115.0.1", now + TTL_DRIVERS_SEC),
            driver("118", "geckodriver", "0.33.0", now + TTL_DRIVERS_SEC),
        ],
    };
    let expected = Metadata {
        browsers: vec![
            browser("chrome", "115", now + 1),
            browser("firefox", "118", now + 500),
        ],
        drivers: vec![
            driver("115", "chromedriver", "115.0.1", now + TTL_DRIVERS_SEC),
            driver("118", "geckodriver", "0.33.0", now + TTL_DRIVERS_SEC),
        ],
    };
    let loaded = get_metadata(Some(store), now);
    assert_eq!(loaded, expected);
}

#[test]
fn load_excludes_expired_records_and_boundary_expiry_counts_as_expired() {
    let now: u64 = 1_000_000;
    let store = Metadata {
        browsers: vec![
            browser("chrome", "old", now - 1),
            browser("chrome", "boundary", now),
            browser("chrome", "live", now + 1),
        ],
        drivers: vec![
            driver("100", "chromedriver", "old", now - 1),
            driver("100", "chromedriver", "boundary", now),
            driver("100", "chromedriver", "live", now + 1),
        ],
    };
    let loaded = get_metadata(Some(store), now);
    assert_eq!(loaded.browsers, vec![browser("chrome", "live", now + 1)]);
    assert_eq!(
        loaded.drivers,
        vec![driver("100", "chromedriver", "live", now + 1)]
    );
}

#[test]
fn inserted_driver_record_is_found_after_an_immediate_load() {
    let now: u64 = 1_700_000_000;
    let mut store = new_metadata();
    store
        .drivers
        .push(driver_metadata_at("115", "chromedriver", "115.0.1", now));
    let loaded = get_metadata(Some(store), now);
    let found = get_driver_version_from_metadata(&loaded.drivers, "chromedriver", "115");
    assert_eq!(found, Some("115.0.1".to_string()));
}

#[test]
fn zero_ttl_browser_record_is_never_durably_cached() {
    let now: u64 = 1_700_000_000;
    let mut store = new_metadata();
    store.browsers.push(browser_metadata_at("chrome", "115", now));
    assert_eq!(store.browsers[0].browser_ttl, now + TTL_BROWSERS_SEC);
    // Any later load, including one at the very same instant, prunes it.
    let loaded = get_metadata(Some(store), now);
    assert!(loaded.browsers.is_empty());
    assert_eq!(
        get_browser_version_from_metadata(&loaded.browsers, "chrome"),
        None
    );

    let mut again = new_metadata();
    again.browsers.push(browser_metadata_at("chrome", "115", now));
    let much_later = get_metadata(Some(again), now + 98_765);
    assert!(much_later.browsers.is_empty());
}

#[test]
fn browser_lookup_returns_first_match_in_insertion_order() {
    let records = vec![
        browser("firefox", "118", 10),
        browser("chrome", "115", 10),
        browser("chrome", "116", 10),
    ];
    assert_eq!(
        get_browser_version_from_metadata(&records, "chrome"),
        Some("115".to_string())
    );
    assert_eq!(
        get_browser_version_from_metadata(&records, "firefox"),
        Some("118".to_string())
    );
    assert_eq!(get_browser_version_from_metadata(&records, "edge"), None);
}

#[test]
fn driver_lookup_returns_first_match_on_both_keys() {
    let records = vec![
        driver("114", "chromedriver", "114.0.0", 10),
        driver("115", "chromedriver", "115.0.1", 10),
        driver("115", "chromedriver", "115.0.2", 10),
        driver("115", "geckodriver", "0.33.0", 10),
    ];
    assert_eq!(
        get_driver_version_from_metadata(&records, "chromedriver", "115"),
        Some("115.0.1".to_string())
    );
    assert_eq!(
        get_driver_version_from_metadata(&records, "geckodriver", "115"),
        Some("0.33.0".to_string())
    );
    assert_eq!(
        get_driver_version_from_metadata(&records, "chromedriver", "116"),
        None
    );
    assert_eq!(
        get_driver_version_from_metadata(&records, "msedgedriver", "115"),
        None
    );
}

#[test]
fn lookup_on_empty_record_sets_misses() {
    let store = new_metadata();
    assert_eq!(
        get_browser_version_from_metadata(&store.browsers, "chrome"),
        None
    );
    assert_eq!(
        get_driver_version_from_metadata(&store.drivers, "chromedriver", "115"),
        None
    );
}

#[test]
fn created_records_copy_their_fields_exactly() {
    let b = create_browser_metadata("chrome", &"115".to_string());
    assert_eq!(b.browser_name, "chrome");
    assert_eq!(b.browser_version, "115");

    let d = create_driver_metadata("115", "chromedriver", "115.0.1");
    assert_eq!(d.browser_version, "115");
    assert_eq!(d.driver_name, "chromedriver");
    assert_eq!(d.driver_version, "115.0.1");
    assert!(d.driver_ttl >= TTL_DRIVERS_SEC);
}

#[test]
fn created_driver_record_is_live_for_a_day_from_now() {
    let before = now_unix_timestamp();
    let d = create_driver_metadata("115", "chromedriver", "115.0.1");
    // The stamp comes from the same clock, so the expiry is at least a day
    // ahead of the instant observed just before the call.
    assert!(d.driver_ttl >= before + TTL_DRIVERS_SEC);
}

#[test]
fn metadata_path_is_the_fixed_file_name_under_the_cache_folder() {
    assert_eq!(METADATA_FILE, "selenium-manager.json");
    assert_eq!(
        get_metadata_path("/home/user/.cache/selenium"),
        "/home/user/.cache/selenium/selenium-manager.json"
    );
}

#[test]
fn lock_file_path_is_the_fixed_lock_name_under_the_guarded_directory() {
    assert_eq!(LOCK_FILE, "sm.lock");
    assert_eq!(lock_file_path("/tmp/cache"), "/tmp/cache/sm.lock");
}

#[test]
fn acquire_records_the_guarded_directory() {
    let mut state = LockState::new();
    let lock = Lock::acquire(&mut state, "/tmp/cache");
    assert_eq!(state.recorded, Some("/tmp/cache".to_string()));
    assert_eq!(lock.path, "/tmp/cache/sm.lock");
}

#[test]
fn release_is_idempotent_and_never_errs() {
    let mut state = LockState::new();
    let mut lock = Lock::acquire(&mut state, "/tmp/cache");
    lock.release(&mut state);
    assert_eq!(state.recorded, None);
    // A second release — as after the lock file was already externally
    // removed — changes nothing and raises nothing.
    lock.release(&mut state);
    assert_eq!(state.recorded, None);
    assert_eq!(lock.path, "/tmp/cache/sm.lock");
}

#[test]
fn cleanup_is_a_no_op_when_no_lock_is_outstanding() {
    let state = LockState::new();
    assert_eq!(clear_lock_if_required(&state), None);

    let mut held = LockState::new();
    let mut lock = Lock::acquire(&mut held, "/tmp/cache");
    lock.release(&mut held);
    assert_eq!(clear_lock_if_required(&held), None);
}

#[test]
fn cleanup_names_the_guarded_directory_while_a_lock_is_outstanding() {
    let mut state = LockState::new();
    let _lock = Lock::acquire(&mut state, "/tmp/cache");
    assert_eq!(
        clear_lock_if_required(&state),
        Some(&"/tmp/cache".to_string())
    );
}

#[test]
fn two_sequential_acquire_release_cycles_complete_cleanly() {
    let mut state = LockState::new();
    let mut first = Lock::acquire(&mut state, "/tmp/cache");
    first.release(&mut state);
    let mut second = Lock::acquire(&mut state, "/tmp/cache");
    assert_eq!(state.recorded, Some("/tmp/cache".to_string()));
    second.release(&mut state);
    // After the second release nothing is outstanding, so the cleanup path
    // would leave the directory (and the removed lock file) alone.
    assert_eq!(state.recorded, None);
    assert_eq!(clear_lock_if_required(&state), None);
}
