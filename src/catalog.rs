use vstd::prelude::*;

use crate::browser::{Browser, BrowserView};
use crate::locate::{can_find_driver, find_executable, opt_chars};

verus! {

/// Where the Firefox application lives on a standard macOS install.
pub const FIREFOX_APP: &'static str = "/Applications/Firefox.app/Contents/MacOS/firefox-bin";

/// Where the Chrome application lives on a standard macOS install.
pub const CHROME_APP: &'static str = "/Applications/Google Chrome.app/Contents/MacOS/Google Chrome";

/// True when `pattern` occurs as a contiguous run of characters of `text`.
pub open spec fn occurs_in(pattern: Seq<char>, text: Seq<char>) -> bool {
    exists|i: int|
        0 <= i && i + pattern.len() <= text.len() && #[trigger] text.subrange(i, i + pattern.len())
            == pattern
}

/// Relies on `str::contains` with a `&str` pattern: true exactly when the
/// pattern occurs in the text.
#[verifier::external_body]
fn text_contains(text: &str, pattern: &str) -> (r: bool)
    ensures
        r == occurs_in(pattern@, text@),
{
    text.contains(pattern)
}

/// Relies on `std::path::Path::is_file`: whether a regular file exists at
/// `path`. It depends on the disk, so nothing is stated of the outcome.
#[verifier::external_body]
fn is_regular_file(path: &str) -> (r: bool) {
    std::path::Path::new(path).is_file()
}

/// What the environment reported to the catalog builder.
pub struct Probe {
    /// For each name of [`candidate_names`], in order, the executable found on `PATH`.
    pub path_hits: Vec<Option<String>>,
    /// Where `geckodriver` was found; empty when it was not.
    pub geckodriver: String,
    /// Where `chromedriver` was found; empty when it was not.
    pub chromedriver: String,
    /// Whether [`FIREFOX_APP`] is a regular file.
    pub firefox_app: bool,
    /// Whether [`CHROME_APP`] is a regular file.
    pub chrome_app: bool,
    /// Whether the operating system is macOS.
    pub on_mac: bool,
}

/// The mathematical value of a [`Probe`].
pub ghost struct ProbeView {
    pub path_hits: Seq<Option<Seq<char>>>,
    pub geckodriver: Seq<char>,
    pub chromedriver: Seq<char>,
    pub firefox_app: bool,
    pub chrome_app: bool,
    pub on_mac: bool,
}

impl View for Probe {
    type V = ProbeView;

    open spec fn view(&self) -> ProbeView {
        ProbeView {
            path_hits: self.path_hits@.map_values(|h: Option<String>| opt_chars(h)),
            geckodriver: self.geckodriver@,
            chromedriver: self.chromedriver@,
            firefox_app: self.firefox_app,
            chrome_app: self.chrome_app,
            on_mac: self.on_mac,
        }
    }
}

/// The records of a list, as values.
pub open spec fn views(s: Seq<Browser>) -> Seq<BrowserView> {
    s.map_values(|b: Browser| b@)
}

pub open spec fn firefox_entry(browser_path: Seq<char>, geckodriver: Seq<char>) -> BrowserView {
    BrowserView {
        name: "firefox"@,
        driver_path: geckodriver,
        browser_path,
        version: Seq::empty(),
    }
}

pub open spec fn chrome_entry(browser_path: Seq<char>, chromedriver: Seq<char>) -> BrowserView {
    BrowserView {
        name: "chrome"@,
        driver_path: chromedriver,
        browser_path,
        version: Seq::empty(),
    }
}

pub open spec fn safari_entry() -> BrowserView {
    BrowserView {
        name: "Safari"@,
        driver_path: "/usr/bin/safaridriver"@,
        browser_path: "/Applications/Safari.app/Contents/MacOS/Safari"@,
        version: Seq::empty(),
    }
}

/// The record for an executable found on `PATH`: Firefox when its path
/// mentions `firefox`, Chrome otherwise.
pub open spec fn entry_for_hit(path: Seq<char>, geckodriver: Seq<char>, chromedriver: Seq<char>) -> BrowserView {
    if occurs_in("firefox"@, path) {
        firefox_entry(path, geckodriver)
    } else {
        chrome_entry(path, chromedriver)
    }
}

/// One record per executable found on `PATH`, in the order of the candidates.
pub open spec fn scan_entries(
    hits: Seq<Option<Seq<char>>>,
    geckodriver: Seq<char>,
    chromedriver: Seq<char>,
) -> Seq<BrowserView>
    decreases hits.len(),
{
    if hits.len() == 0 {
        Seq::empty()
    } else {
        let rest = scan_entries(hits.drop_last(), geckodriver, chromedriver);
        match hits.last() {
            Some(p) => rest.push(entry_for_hit(p, geckodriver, chromedriver)),
            None => rest,
        }
    }
}

/// The records for the applications present at the usual macOS locations.
pub open spec fn fallback_entries(p: ProbeView) -> Seq<BrowserView> {
    let f = if p.firefox_app {
        seq![firefox_entry(FIREFOX_APP@, p.geckodriver)]
    } else {
        Seq::empty()
    };
    if p.chrome_app {
        f.push(chrome_entry(CHROME_APP@, p.chromedriver))
    } else {
        f
    }
}

/// The catalog for what the environment reported: the `PATH` hits, else the
/// applications at the usual locations, then Safari on macOS.
pub open spec fn catalog_of(p: ProbeView) -> Seq<BrowserView> {
    let scanned = scan_entries(p.path_hits, p.geckodriver, p.chromedriver);
    let found = if scanned.len() == 0 {
        fallback_entries(p)
    } else {
        scanned
    };
    if p.on_mac {
        found.push(safari_entry())
    } else {
        found
    }
}


fn firefox_record(browser_path: String, geckodriver: &String) -> (r: Browser)
    ensures
        r@ == firefox_entry(browser_path@, geckodriver@),
{
    Browser::new("firefox".to_owned(), geckodriver.clone(), browser_path, String::new())
}

fn chrome_record(browser_path: String, chromedriver: &String) -> (r: Browser)
    ensures
        r@ == chrome_entry(browser_path@, chromedriver@),
{
    Browser::new("chrome".to_owned(), chromedriver.clone(), browser_path, String::new())
}

fn safari_record() -> (r: Browser)
    ensures
        r@ == safari_entry(),
{
    Browser::new(
        "Safari".to_owned(),
        "/usr/bin/safaridriver".to_owned(),
        "/Applications/Safari.app/Contents/MacOS/Safari".to_owned(),
        String::new(),
    )
}

/// The record for an executable found on `PATH` at `path`, classified by
/// whether the path mentions `firefox`.
pub fn record_for_hit(path: &String, geckodriver: &String, chromedriver: &String) -> (r: Browser)
    ensures
        r@ == entry_for_hit(path@, geckodriver@, chromedriver@),
{
    if text_contains(path.as_str(), "firefox") {
        firefox_record(path.clone(), geckodriver)
    } else {
        chrome_record(path.clone(), chromedriver)
    }
}

/// Assembles the catalog from what the environment reported.
pub fn assemble_catalog(probe: &Probe) -> (r: Vec<Browser>)
    ensures
        views(r@) == catalog_of(probe@),
{
    let ghost hits = probe@.path_hits;
    let mut list: Vec<Browser> = Vec::new();
    let mut i: usize = 0;
    while i < probe.path_hits.len()
        invariant
            i <= probe.path_hits.len(),
            hits == probe@.path_hits,
            hits.len() == probe.path_hits@.len(),
            views(list@) == scan_entries(hits.take(i as int), probe.geckodriver@, probe.chromedriver@),
        decreases probe.path_hits.len() - i,
    {
        proof {
            assert(hits.take(i + 1).drop_last() =~= hits.take(i as int));
            assert(hits.take(i + 1).last() == opt_chars(probe.path_hits@[i as int]));
        }
        match &probe.path_hits[i] {
            Some(path) => {
                let b = record_for_hit(path, &probe.geckodriver, &probe.chromedriver);
                let ghost before = list@;
                list.push(b);
                assert(views(list@) =~= views(before).push(b@));
            },
            None => {},
        }
        i += 1;
    }
    assert(hits.take(i as int) =~= hits);
    if list.len() == 0 {
        if probe.firefox_app {
            list.push(firefox_record(FIREFOX_APP.to_owned(), &probe.geckodriver));
            assert(views(list@) =~= fallback_entries(probe@).take(1));
        }
        if probe.chrome_app {
            list.push(chrome_record(CHROME_APP.to_owned(), &probe.chromedriver));
        }
    }
    if probe.on_mac {
        list.push(safari_record());
    }
    list
}


/// The executable names probed on `PATH`, in order.
pub open spec fn candidates() -> Seq<Seq<char>> {
    seq!["firefox"@, "firefox-bin"@, "Google Chrome"@, "chrome"@]
}

/// The executable names probed on `PATH`, in order.
pub fn candidate_names() -> (r: Vec<&'static str>)
    ensures
        r@.len() == candidates().len(),
        forall|i: int| 0 <= i < r@.len() ==> #[trigger] r@[i]@ == candidates()[i],
{
    vec!["firefox", "firefox-bin", "Google Chrome", "chrome"]
}

/// True when some executable was found on `PATH`.
pub open spec fn any_hit(hits: Seq<Option<Seq<char>>>) -> bool {
    exists|i: int| 0 <= i < hits.len() && #[trigger] hits[i] is Some
}

fn some_found(hits: &Vec<Option<String>>) -> (r: bool)
    ensures
        r == any_hit(hits@.map_values(|h: Option<String>| opt_chars(h))),
{
    let ghost seen = hits@.map_values(|h: Option<String>| opt_chars(h));
    let mut i: usize = 0;
    while i < hits.len()
        invariant
            i <= hits.len(),
            seen == hits@.map_values(|h: Option<String>| opt_chars(h)),
            forall|j: int| 0 <= j < i ==> seen[j] is None,
        decreases hits.len() - i,
    {
        if hits[i].is_some() {
            assert(seen[i as int] is Some);
            return true;
        }
        i += 1;
    }
    false
}

/// Probes the environment and builds the catalog of available browsers:
/// each candidate of [`candidate_names`] on `PATH`; the usual macOS install
/// locations only when nothing was found there; Safari when `on_mac`.
pub fn get_available_browsers(on_mac: bool) -> (r: Vec<Browser>)
    ensures
        exists|p: ProbeView|
            {
                &&& p.on_mac == on_mac
                &&& p.path_hits.len() == candidates().len()
                &&& any_hit(p.path_hits) ==> !p.firefox_app && !p.chrome_app
                &&& views(r@) == catalog_of(p)
            },
{
    let names = candidate_names();
    let mut path_hits: Vec<Option<String>> = Vec::new();
    let mut i: usize = 0;
    while i < names.len()
        invariant
            i <= names.len(),
            names@.len() == candidates().len(),
            path_hits@.len() == i,
        decreases names.len() - i,
    {
        path_hits.push(find_executable(names[i]));
        i += 1;
    }
    let found = some_found(&path_hits);
    let firefox_app = !found && is_regular_file(FIREFOX_APP);
    let chrome_app = !found && is_regular_file(CHROME_APP);
    let probe = Probe {
        path_hits,
        geckodriver: can_find_driver("geckodriver"),
        chromedriver: can_find_driver("chromedriver"),
        firefox_app,
        chrome_app,
        on_mac,
    };
    let r = assemble_catalog(&probe);
    assert(probe@.path_hits.len() == candidates().len());
    r
}

/// True when `i` is the first position of `s` whose record is named `name`.
pub open spec fn first_named(s: Seq<BrowserView>, name: Seq<char>, i: int) -> bool {
    &&& 0 <= i < s.len()
    &&& s[i].name == name
    &&& forall|j: int| 0 <= j < i ==> s[j].name != name
}

/// What a lookup of `name` in `s` answers: the first record so named, or
/// nothing when none is.
pub open spec fn lookup_answer(s: Seq<BrowserView>, name: Seq<char>, r: Option<BrowserView>) -> bool {
    match r {
        Some(b) => exists|i: int| first_named(s, name, i) && b == s[i],
        None => forall|i: int| 0 <= i < s.len() ==> s[i].name != name,
    }
}

pub open spec fn opt_view(r: Option<Browser>) -> Option<BrowserView> {
    match r {
        Some(b) => Some(b@),
        None => None,
    }
}

/// The first record of `catalog` named exactly `name`, if any.
pub fn find_in_catalog(catalog: Vec<Browser>, name: &String) -> (r: Option<Browser>)
    ensures
        lookup_answer(views(catalog@), name@, opt_view(r)),
{
    let ghost s = views(catalog@);
    let mut i: usize = 0;
    while i < catalog.len()
        invariant
            i <= catalog.len(),
            s == views(catalog@),
            forall|j: int| 0 <= j < i ==> s[j].name != name@,
        decreases catalog.len() - i,
    {
        if catalog[i].name.eq(name) {
            let mut rest = catalog;
            let b = rest.remove(i);
            assert(first_named(s, name@, i as int));
            return Some(b);
        }
        i += 1;
    }
    None
}

/// Finds the details of the browser named `browser_name` among those
/// available on this machine (see [`get_available_browsers`]).
pub fn find_browser_for(browser_name: String, on_mac: bool) -> (r: Option<Browser>)
    ensures
        exists|p: ProbeView|
            {
                &&& p.on_mac == on_mac
                &&& p.path_hits.len() == candidates().len()
                &&& any_hit(p.path_hits) ==> !p.firefox_app && !p.chrome_app
                &&& lookup_answer(catalog_of(p), browser_name@, opt_view(r))
            },
{
    find_in_catalog(get_available_browsers(on_mac), &browser_name)
}

} // verus!

verus! {

/// The catalog with Safari added on macOS.
pub open spec fn with_safari(found: Seq<BrowserView>, on_mac: bool) -> Seq<BrowserView> {
    if on_mac {
        found.push(safari_entry())
    } else {
        found
    }
}

/// The `PATH` scan yields nothing exactly when no candidate was found, and
/// each record it yields is named `firefox` or `chrome`.
pub proof fn lemma_scan_shape(hits: Seq<Option<Seq<char>>>, geckodriver: Seq<char>, chromedriver: Seq<char>)
    ensures
        scan_entries(hits, geckodriver, chromedriver).len() == 0 <==> !any_hit(hits),
        forall|i: int|
            0 <= i < scan_entries(hits, geckodriver, chromedriver).len() ==> {
                let n = #[trigger] scan_entries(hits, geckodriver, chromedriver)[i].name;
                n == "firefox"@ || n == "chrome"@
            },
    decreases hits.len(),
{
    if hits.len() > 0 {
        let front = hits.drop_last();
        lemma_scan_shape(front, geckodriver, chromedriver);
        if any_hit(front) {
            let i = choose|i: int| 0 <= i < front.len() && #[trigger] front[i] is Some;
            assert(hits[i] is Some);
        }
        if any_hit(hits) && hits.last() is None {
            let i = choose|i: int| 0 <= i < hits.len() && #[trigger] hits[i] is Some;
            assert(front[i] is Some);
        }
    }
}

/// The usual install locations count only when the `PATH` scan found
/// nothing: with a hit the catalog is the scan's records (and Safari on
/// macOS), whatever is installed there; without one it is what is
/// installed there (and Safari on macOS).
pub proof fn lemma_fallback_gated(p: ProbeView)
    ensures
        any_hit(p.path_hits) ==> catalog_of(p) == with_safari(
            scan_entries(p.path_hits, p.geckodriver, p.chromedriver),
            p.on_mac,
        ),
        !any_hit(p.path_hits) ==> catalog_of(p) == with_safari(fallback_entries(p), p.on_mac),
{
    lemma_scan_shape(p.path_hits, p.geckodriver, p.chromedriver);
}

/// On macOS the catalog always ends with Safari, so it has at least one
/// record, and at least two once another browser was found; elsewhere it
/// never holds Safari.
pub proof fn lemma_safari_only_on_mac(p: ProbeView)
    ensures
        p.on_mac ==> catalog_of(p).len() >= 1 && catalog_of(p).last() == safari_entry(),
        p.on_mac && (any_hit(p.path_hits) || p.firefox_app || p.chrome_app) ==> catalog_of(p).len()
            >= 2,
        !p.on_mac ==> forall|i: int|
            0 <= i < catalog_of(p).len() ==> #[trigger] catalog_of(p)[i].name != "Safari"@,
{
    reveal_strlit("Safari");
    reveal_strlit("firefox");
    reveal_strlit("chrome");
    lemma_scan_shape(p.path_hits, p.geckodriver, p.chromedriver);
    let scanned = scan_entries(p.path_hits, p.geckodriver, p.chromedriver);
    if !p.on_mac {
        assert forall|i: int| 0 <= i < catalog_of(p).len() implies #[trigger] catalog_of(
            p,
        )[i].name != "Safari"@ by {
            if scanned.len() != 0 {
                let n = scanned[i].name;
                assert(n == "firefox"@ || n == "chrome"@);
                assert(n.len() != "Safari"@.len() || n[0] != "Safari"@[0]);
            } else {
                assert(catalog_of(p)[i].name.len() != "Safari"@.len() || catalog_of(p)[i].name[0]
                    != "Safari"@[0]);
            }
        }
    }
}

/// Looking up the name of any record of the catalog finds a record of that
/// name: the first one so named.
pub proof fn lemma_lookup_finds_listed(p: ProbeView, k: int, r: Option<BrowserView>)
    requires
        0 <= k < catalog_of(p).len(),
        lookup_answer(catalog_of(p), catalog_of(p)[k].name, r),
    ensures
        r is Some,
        r->Some_0.name == catalog_of(p)[k].name,
{
}

} // verus!
