//! TTL-indexed metadata store: a record set with per-record absolute expiry
//! timestamps, pruned lazily at load time and persisted as a whole-file
//! snapshot by the surrounding application.
//!
//! The application owns the file I/O and the structured-text codec; this
//! module owns everything the store decides: which records survive a load,
//! which record answers a lookup, and what expiry a fresh record carries.

use vstd::prelude::*;
use vstd::string::StringExecFns;

verus! {

broadcast use vstd::string::group_string_axioms;

/// Fixed name of the metadata file inside the cache folder.
pub const METADATA_FILE: &'static str = "selenium-manager.json";

/// Absolute-expiry TTL added to a freshly created browser record, in seconds.
/// Zero on purpose: a browser record is already expired at the next load, so
/// browser versions are cached only for the remainder of the current logical
/// operation. Preserved exactly; do not raise it.
pub const TTL_BROWSERS_SEC: u64 = 0;

/// Absolute-expiry TTL added to a freshly created driver record, in seconds
/// (one day).
pub const TTL_DRIVERS_SEC: u64 = 86400;

/// A cached browser version. `browser_ttl` is an absolute unix-epoch second
/// count, not a duration: the record is live at instant `now` iff
/// `browser_ttl > now` (strict).
#[derive(Debug, PartialEq, Eq)]
pub struct Browser {
    pub browser_name: String,
    pub browser_version: String,
    pub browser_ttl: u64,
}

/// A cached driver version, keyed by driver name and major browser version.
/// `driver_ttl` is an absolute unix-epoch second count.
#[derive(Debug, PartialEq, Eq)]
pub struct Driver {
    pub browser_version: String,
    pub driver_name: String,
    pub driver_version: String,
    pub driver_ttl: u64,
}

/// The whole record set held by the metadata file: two ordered sequences,
/// appended to on insertion and pruned only at load time.
#[derive(Debug, PartialEq, Eq)]
pub struct Metadata {
    pub browsers: Vec<Browser>,
    pub drivers: Vec<Driver>,
}

impl Clone for Browser {
    fn clone(&self) -> (r: Self)
        ensures
            r == *self,
    {
        Browser {
            browser_name: self.browser_name.clone(),
            browser_version: self.browser_version.clone(),
            browser_ttl: self.browser_ttl,
        }
    }
}

impl Clone for Driver {
    fn clone(&self) -> (r: Self)
        ensures
            r == *self,
    {
        Driver {
            browser_version: self.browser_version.clone(),
            driver_name: self.driver_name.clone(),
            driver_version: self.driver_version.clone(),
            driver_ttl: self.driver_ttl,
        }
    }
}

/// A browser record is live at instant `now` iff its expiry lies strictly in
/// the future; a record whose expiry equals `now` is already expired.
pub open spec fn browser_live(b: Browser, now: u64) -> bool {
    b.browser_ttl > now
}

/// A driver record is live at instant `now` iff its expiry lies strictly in
/// the future.
pub open spec fn driver_live(d: Driver, now: u64) -> bool {
    d.driver_ttl > now
}

/// The browser records that survive a load at instant `now`, in their
/// original insertion order.
pub open spec fn live_browsers(s: Seq<Browser>, now: u64) -> Seq<Browser> {
    s.filter(|b: Browser| browser_live(b, now))
}

/// The driver records that survive a load at instant `now`, in their
/// original insertion order.
pub open spec fn live_drivers(s: Seq<Driver>, now: u64) -> Seq<Driver> {
    s.filter(|d: Driver| driver_live(d, now))
}

/// The version of the first browser record whose name equals `name`, in
/// insertion order; `None` means a cache miss.
pub open spec fn first_browser_version(s: Seq<Browser>, name: Seq<char>) -> Option<Seq<char>>
    decreases s.len(),
{
    if s.len() == 0 {
        None
    } else if s[0].browser_name@ == name {
        Some(s[0].browser_version@)
    } else {
        first_browser_version(s.drop_first(), name)
    }
}

/// The version of the first driver record whose driver name equals `name`
/// and whose browser version equals `browser_version`, in insertion order;
/// `None` means a cache miss.
pub open spec fn first_driver_version(
    s: Seq<Driver>,
    name: Seq<char>,
    browser_version: Seq<char>,
) -> Option<Seq<char>>
    decreases s.len(),
{
    if s.len() == 0 {
        None
    } else if s[0].driver_name@ == name && s[0].browser_version@ == browser_version {
        Some(s[0].driver_version@)
    } else {
        first_driver_version(s.drop_first(), name, browser_version)
    }
}

/// Where the metadata file lives: the fixed file name joined under the
/// externally supplied cache folder.
pub fn get_metadata_path(cache_folder: &str) -> (p: String)
    ensures
        p@ == cache_folder@ + "/"@ + METADATA_FILE@,
{
    let mut p = cache_folder.to_string();
    p.append("/");
    p.append(METADATA_FILE);
    proof {
        assert(p@ =~= cache_folder@ + "/"@ + METADATA_FILE@);
    }
    p
}

/// Relies on `std::time::SystemTime::now` and
/// `SystemTime::duration_since(UNIX_EPOCH)`: whole seconds of the system
/// clock since the unix epoch (zero if the clock reads earlier than the
/// epoch). Nothing is promised of the result: the clock is outside the
/// library, and callers must hold for every value that comes back.
#[verifier::external_body]
pub fn now_unix_timestamp() -> u64 {
    match std::time::SystemTime::now().duration_since(std::time::UNIX_EPOCH) {
        Ok(d) => d.as_secs(),
        Err(_) => 0,
    }
}

/// A fresh, empty store: the cold-start value used when the metadata file is
/// absent or cannot be parsed.
pub fn new_metadata() -> (m: Metadata)
    ensures
        m.browsers@ == Seq::<Browser>::empty(),
        m.drivers@ == Seq::<Driver>::empty(),
{
    Metadata { browsers: Vec::new(), drivers: Vec::new() }
}

/// The browser records of `v` that are live at `now`, in order.
fn retain_live_browsers(v: &Vec<Browser>, now: u64) -> (kept: Vec<Browser>)
    ensures
        kept@ == live_browsers(v@, now),
{
    let mut kept: Vec<Browser> = Vec::new();
    let mut i: usize = 0;
    while i < v.len()
        invariant
            i <= v@.len(),
            kept@ == live_browsers(v@.take(i as int), now),
        decreases v@.len() - i,
    {
        if v[i].browser_ttl > now {
            kept.push(v[i].clone());
        }
        proof {
            reveal(Seq::filter);
            assert(v@.take(i + 1).drop_last() =~= v@.take(i as int));
            assert(v@.take(i + 1).last() == v@[i as int]);
        }
        i += 1;
    }
    proof {
        assert(v@.take(v@.len() as int) =~= v@);
    }
    kept
}

/// The driver records of `v` that are live at `now`, in order.
fn retain_live_drivers(v: &Vec<Driver>, now: u64) -> (kept: Vec<Driver>)
    ensures
        kept@ == live_drivers(v@, now),
{
    let mut kept: Vec<Driver> = Vec::new();
    let mut i: usize = 0;
    while i < v.len()
        invariant
            i <= v@.len(),
            kept@ == live_drivers(v@.take(i as int), now),
        decreases v@.len() - i,
    {
        if v[i].driver_ttl > now {
            kept.push(v[i].clone());
        }
        proof {
            reveal(Seq::filter);
            assert(v@.take(i + 1).drop_last() =~= v@.take(i as int));
            assert(v@.take(i + 1).last() == v@[i as int]);
        }
        i += 1;
    }
    proof {
        assert(v@.take(v@.len() as int) =~= v@);
    }
    kept
}

/// The store a load yields at instant `now`, given what the application read
/// and parsed from the metadata file: `None` when the file is absent or its
/// content could not be parsed (both are a cold start, never an error), the
/// parsed store otherwise. Every record whose expiry is not strictly greater
/// than `now` is dropped; the survivors keep their insertion order.
pub fn get_metadata(parsed: Option<Metadata>, now: u64) -> (m: Metadata)
    ensures
        match parsed {
            Some(p) => m.browsers@ == live_browsers(p.browsers@, now) && m.drivers@
                == live_drivers(p.drivers@, now),
            None => m.browsers@ == Seq::<Browser>::empty() && m.drivers@
                == Seq::<Driver>::empty(),
        },
{
    match parsed {
        Some(p) => {
            let browsers = retain_live_browsers(&p.browsers, now);
            let drivers = retain_live_drivers(&p.drivers, now);
            Metadata { browsers, drivers }
        },
        None => new_metadata(),
    }
}

/// The version of the first record in `browsers_metadata` whose name equals
/// `browser_name`, or `None` if no record matches.
pub fn get_browser_version_from_metadata(
    browsers_metadata: &[Browser],
    browser_name: &str,
) -> (r: Option<String>)
    ensures
        match r {
            Some(v) => first_browser_version(browsers_metadata@, browser_name@) == Some(v@),
            None => first_browser_version(browsers_metadata@, browser_name@) is None,
        },
{
    let name: String = browser_name.to_string();
    let n = browsers_metadata.len();
    let mut i: usize = 0;
    proof {
        assert(browsers_metadata@.skip(0) =~= browsers_metadata@);
    }
    while i < n
        invariant
            n == browsers_metadata@.len(),
            i <= n,
            name@ == browser_name@,
            first_browser_version(browsers_metadata@, browser_name@) == first_browser_version(
                browsers_metadata@.skip(i as int),
                browser_name@,
            ),
            browsers_metadata@.skip(i as int).len() == n - i,
        decreases n - i,
    {
        if browsers_metadata[i].browser_name == name {
            proof {
                assert(browsers_metadata@.skip(i as int)[0] == browsers_metadata@[i as int]);
            }
            return Some(browsers_metadata[i].browser_version.clone());
        }
        proof {
            assert(browsers_metadata@.skip(i as int)[0] == browsers_metadata@[i as int]);
            assert(browsers_metadata@.skip(i as int).drop_first() =~= browsers_metadata@.skip(
                i + 1,
            ));
        }
        i += 1;
    }
    None
}

/// The version of the first record in `drivers_metadata` whose driver name
/// equals `driver_name` and whose browser version equals `browser_version`,
/// or `None` if no record matches.
pub fn get_driver_version_from_metadata(
    drivers_metadata: &[Driver],
    driver_name: &str,
    browser_version: &str,
) -> (r: Option<String>)
    ensures
        match r {
            Some(v) => first_driver_version(drivers_metadata@, driver_name@, browser_version@)
                == Some(v@),
            None => first_driver_version(drivers_metadata@, driver_name@, browser_version@)
                is None,
        },
{
    let name: String = driver_name.to_string();
    let bversion: String = browser_version.to_string();
    let n = drivers_metadata.len();
    let mut i: usize = 0;
    proof {
        assert(drivers_metadata@.skip(0) =~= drivers_metadata@);
    }
    while i < n
        invariant
            n == drivers_metadata@.len(),
            i <= n,
            name@ == driver_name@,
            bversion@ == browser_version@,
            first_driver_version(drivers_metadata@, driver_name@, browser_version@)
                == first_driver_version(
                drivers_metadata@.skip(i as int),
                driver_name@,
                browser_version@,
            ),
            drivers_metadata@.skip(i as int).len() == n - i,
        decreases n - i,
    {
        if drivers_metadata[i].driver_name == name && drivers_metadata[i].browser_version
            == bversion {
            proof {
                assert(drivers_metadata@.skip(i as int)[0] == drivers_metadata@[i as int]);
            }
            return Some(drivers_metadata[i].driver_version.clone());
        }
        proof {
            assert(drivers_metadata@.skip(i as int)[0] == drivers_metadata@[i as int]);
            assert(drivers_metadata@.skip(i as int).drop_first() =~= drivers_metadata@.skip(
                i + 1,
            ));
        }
        i += 1;
    }
    None
}

/// A browser record created at instant `now`: its expiry is `now` plus the
/// (zero) browser TTL, so it is already expired at any later load.
pub fn browser_metadata_at(browser_name: &str, browser_version: &str, now: u64) -> (b: Browser)
    ensures
        b.browser_name@ == browser_name@,
        b.browser_version@ == browser_version@,
        b.browser_ttl == now + TTL_BROWSERS_SEC,
{
    Browser {
        browser_name: browser_name.to_string(),
        browser_version: browser_version.to_string(),
        browser_ttl: now + TTL_BROWSERS_SEC,
    }
}

/// A driver record created at instant `now`: its expiry is `now` plus the
/// one-day driver TTL.
pub fn driver_metadata_at(
    browser_version: &str,
    driver_name: &str,
    driver_version: &str,
    now: u64,
) -> (d: Driver)
    requires
        now + TTL_DRIVERS_SEC <= u64::MAX,
    ensures
        d.browser_version@ == browser_version@,
        d.driver_name@ == driver_name@,
        d.driver_version@ == driver_version@,
        d.driver_ttl == now + TTL_DRIVERS_SEC,
{
    Driver {
        browser_version: browser_version.to_string(),
        driver_name: driver_name.to_string(),
        driver_version: driver_version.to_string(),
        driver_ttl: now + TTL_DRIVERS_SEC,
    }
}

/// A fresh browser record stamped with the current clock. The clock value is
/// outside the library, so only the copied fields are pinned here; the
/// expiry arithmetic is stated and proved in `browser_metadata_at`.
pub fn create_browser_metadata(browser_name: &str, browser_version: &String) -> (b: Browser)
    ensures
        b.browser_name@ == browser_name@,
        b.browser_version@ == browser_version@,
{
    let now = now_unix_timestamp();
    browser_metadata_at(browser_name, browser_version.as_str(), now)
}

/// A fresh driver record stamped with the current clock. The clock value is
/// outside the library, so only the copied fields are pinned here; the
/// expiry arithmetic is stated and proved in `driver_metadata_at`. Should
/// the clock read within one day of the largest representable instant, the
/// expiry saturates there instead of overflowing.
pub fn create_driver_metadata(
    browser_version: &str,
    driver_name: &str,
    driver_version: &str,
) -> (d: Driver)
    ensures
        d.browser_version@ == browser_version@,
        d.driver_name@ == driver_name@,
        d.driver_version@ == driver_version@,
        d.driver_ttl >= TTL_DRIVERS_SEC,
{
    let now = now_unix_timestamp();
    let stamp = if now <= u64::MAX - TTL_DRIVERS_SEC {
        now
    } else {
        u64::MAX - TTL_DRIVERS_SEC
    };
    driver_metadata_at(browser_version, driver_name, driver_version, stamp)
}

/// A whole store is fresh at instant `now` when every one of its records is
/// still live then.
pub open spec fn all_records_live(browsers: Seq<Browser>, drivers: Seq<Driver>, now: u64) -> bool {
    &&& forall|i: int| 0 <= i < browsers.len() ==> browser_live(#[trigger] browsers[i], now)
    &&& forall|i: int| 0 <= i < drivers.len() ==> driver_live(#[trigger] drivers[i], now)
}

proof fn lemma_live_browsers_of_fresh(s: Seq<Browser>, now: u64)
    requires
        forall|i: int| 0 <= i < s.len() ==> browser_live(#[trigger] s[i], now),
    ensures
        live_browsers(s, now) == s,
    decreases s.len(),
{
    reveal(Seq::filter);
    if s.len() == 0 {
        assert(live_browsers(s, now) =~= s);
    } else {
        lemma_live_browsers_of_fresh(s.drop_last(), now);
        assert(browser_live(s[s.len() - 1], now));
        assert(live_browsers(s, now) =~= s);
    }
}

proof fn lemma_live_drivers_of_fresh(s: Seq<Driver>, now: u64)
    requires
        forall|i: int| 0 <= i < s.len() ==> driver_live(#[trigger] s[i], now),
    ensures
        live_drivers(s, now) == s,
    decreases s.len(),
{
    reveal(Seq::filter);
    if s.len() == 0 {
        assert(live_drivers(s, now) =~= s);
    } else {
        lemma_live_drivers_of_fresh(s.drop_last(), now);
        assert(driver_live(s[s.len() - 1], now));
        assert(live_drivers(s, now) =~= s);
    }
}

/// A store every record of which is live at `now` survives a load at `now`
/// unchanged: persisting it and loading it straight back yields the same
/// records, order and fields preserved. (The persisted bytes themselves are
/// the application's structured-text codec; this states the library's side,
/// that the load-time prune keeps such a store whole.)
pub proof fn lemma_fresh_store_survives_load(
    browsers: Seq<Browser>,
    drivers: Seq<Driver>,
    now: u64,
)
    requires
        all_records_live(browsers, drivers, now),
    ensures
        live_browsers(browsers, now) == browsers,
        live_drivers(drivers, now) == drivers,
{
    lemma_live_browsers_of_fresh(browsers, now);
    lemma_live_drivers_of_fresh(drivers, now);
}

/// A load at instant `now` excludes every expired record and keeps every
/// live one: no surviving record's expiry is at or below `now` (a record
/// whose expiry equals `now` is already gone, strict inequality is required
/// to stay), and every record still strictly ahead of `now` survives.
pub proof fn lemma_load_prunes_exactly_the_expired(
    browsers: Seq<Browser>,
    drivers: Seq<Driver>,
    now: u64,
)
    ensures
        forall|i: int|
            0 <= i < live_browsers(browsers, now).len() ==> browser_live(
                #[trigger] live_browsers(browsers, now)[i],
                now,
            ),
        forall|i: int|
            0 <= i < live_drivers(drivers, now).len() ==> driver_live(
                #[trigger] live_drivers(drivers, now)[i],
                now,
            ),
        forall|i: int|
            0 <= i < browsers.len() && browser_live(#[trigger] browsers[i], now)
                ==> live_browsers(browsers, now).contains(browsers[i]),
        forall|i: int|
            0 <= i < drivers.len() && driver_live(#[trigger] drivers[i], now) ==> live_drivers(
                drivers,
                now,
            ).contains(drivers[i]),
{
    broadcast use vstd::seq_lib::group_filter_ensures;

}

/// Lookups honour insertion order: when `s[i]` is the first record whose
/// name matches, the browser lookup answers with exactly its version, even
/// if later duplicates carry other versions.
pub proof fn lemma_browser_lookup_takes_first_match(s: Seq<Browser>, name: Seq<char>, i: int)
    requires
        0 <= i < s.len(),
        s[i].browser_name@ == name,
        forall|j: int| 0 <= j < i ==> (#[trigger] s[j]).browser_name@ != name,
    ensures
        first_browser_version(s, name) == Some(s[i].browser_version@),
    decreases i,
{
    if i == 0 {
    } else {
        assert(s.drop_first()[i - 1] == s[i]);
        assert(forall|j: int|
            0 <= j < i - 1 ==> (#[trigger] s.drop_first()[j]).browser_name@ != name);
        lemma_browser_lookup_takes_first_match(s.drop_first(), name, i - 1);
    }
}

/// Lookups honour insertion order: when `s[i]` is the first record whose
/// driver name and browser version both match, the driver lookup answers
/// with exactly its version, even if later duplicates carry other versions.
pub proof fn lemma_driver_lookup_takes_first_match(
    s: Seq<Driver>,
    name: Seq<char>,
    browser_version: Seq<char>,
    i: int,
)
    requires
        0 <= i < s.len(),
        s[i].driver_name@ == name,
        s[i].browser_version@ == browser_version,
        forall|j: int|
            0 <= j < i ==> !((#[trigger] s[j]).driver_name@ == name && s[j].browser_version@
                == browser_version),
    ensures
        first_driver_version(s, name, browser_version) == Some(s[i].driver_version@),
    decreases i,
{
    if i == 0 {
    } else {
        assert(s.drop_first()[i - 1] == s[i]);
        assert(forall|j: int|
            0 <= j < i - 1 ==> !((#[trigger] s.drop_first()[j]).driver_name@ == name
                && s.drop_first()[j].browser_version@ == browser_version));
        lemma_driver_lookup_takes_first_match(s.drop_first(), name, browser_version, i - 1);
    }
}

} // verus!
