use browser_manager::{
    assemble_catalog, candidate_names, find_in_catalog, record_for_hit, Browser, Probe,
    CHROME_APP, FIREFOX_APP,
};

fn probe(hits: [Option<&str>; 4], firefox_app: bool, chrome_app: bool, on_mac: bool) -> Probe {
    Probe {
        path_hits: hits.iter().map(|h| h.map(|p| p.to_string())).collect(),
        geckodriver: "/usr/local/bin/geckodriver".to_string(),
        chromedriver: "/usr/local/bin/chromedriver".to_string(),
        firefox_app,
        chrome_app,
        on_mac,
    }
}

fn safari() -> Browser {
    Browser::new(
        "Safari".to_string(),
        "/usr/bin/safaridriver".to_string(),
        "/Applications/Safari.app/Contents/MacOS/Safari".to_string(),
        "".to_string(),
    )
}

#[test]
fn firefox_on_path_is_found_with_its_driver() {
    let p = probe([Some("/usr/local/bin/firefox"), None, None, None], false, false, false);
    let found = find_in_catalog(assemble_catalog(&p), &"firefox".to_string()).unwrap();
    assert_eq!(found.name, "firefox");
    assert_eq!(found.driver_path, "/usr/local/bin/geckodriver");
    assert_eq!(found.browser_path, "/usr/local/bin/firefox");
    assert_eq!(found.version, "");
}

#[test]
fn nothing_installed_off_mac_gives_empty_catalog() {
    let p = probe([None, None, None, None], false, false, false);
    assert!(assemble_catalog(&p).is_empty());
}

#[test]
fn nothing_installed_on_mac_gives_only_safari() {
    let p = probe([None, None, None, None], false, false, true);
    assert_eq!(assemble_catalog(&p), vec![safari()]);
}

#[test]
fn safari_is_appended_after_path_hits_on_mac() {
    let p = probe([None, None, None, Some("/usr/bin/chrome")], false, false, true);
    let c = assemble_catalog(&p);
    assert_eq!(c.len(), 2);
    assert_eq!(c[0].name, "chrome");
    assert_eq!(c[1], safari());
}

#[test]
fn install_locations_are_used_when_path_has_nothing() {
    let p = probe([None, None, None, None], true, true, false);
    let c = assemble_catalog(&p);
    assert_eq!(c.len(), 2);
    assert_eq!(c[0].name, "firefox");
    assert_eq!(c[0].browser_path, FIREFOX_APP);
    assert_eq!(c[0].driver_path, "/usr/local/bin/geckodriver");
    assert_eq!(c[1].name, "chrome");
    assert_eq!(c[1].browser_path, CHROME_APP);
    assert_eq!(c[1].driver_path, "/usr/local/bin/chromedriver");
}

#[test]
fn install_locations_are_ignored_after_a_path_hit() {
    let p = probe([Some("/usr/bin/firefox"), None, None, None], true, true, false);
    let c = assemble_catalog(&p);
    assert_eq!(c.len(), 1);
    assert_eq!(c[0].browser_path, "/usr/bin/firefox");
}

#[test]
fn only_the_chrome_location_present() {
    let p = probe([None, None, None, None], false, true, true);
    let c = assemble_catalog(&p);
    assert_eq!(c.len(), 2);
    assert_eq!(c[0].browser_path, CHROME_APP);
    assert_eq!(c[1], safari());
}

#[test]
fn duplicate_names_are_kept_and_lookup_takes_the_first() {
    let p = probe(
        [None, None, Some("/usr/bin/Google Chrome"), Some("/usr/bin/chrome")],
        false,
        false,
        false,
    );
    let c = assemble_catalog(&p);
    assert_eq!(c.len(), 2);
    assert_eq!(c[0].name, "chrome");
    assert_eq!(c[1].name, "chrome");
    let found = find_in_catalog(c, &"chrome".to_string()).unwrap();
    assert_eq!(found.browser_path, "/usr/bin/Google Chrome");
}

#[test]
fn every_listed_name_is_found() {
    let p = probe(
        [Some("/usr/bin/firefox"), Some("/usr/lib/firefox/firefox-bin"), None, Some("/usr/bin/chrome")],
        false,
        false,
        true,
    );
    let c = assemble_catalog(&p);
    assert_eq!(c.len(), 4);
    for b in &c {
        let found = find_in_catalog(c.clone(), &b.name).unwrap();
        assert_eq!(found.name, b.name);
    }
    let first_firefox = find_in_catalog(c.clone(), &"firefox".to_string()).unwrap();
    assert_eq!(first_firefox.browser_path, "/usr/bin/firefox");
}

#[test]
fn lookup_of_an_unlisted_name_finds_nothing() {
    let p = probe([Some("/usr/bin/firefox"), None, None, None], false, false, false);
    let c = assemble_catalog(&p);
    assert!(find_in_catalog(c.clone(), &"Firefox".to_string()).is_none());
    assert!(find_in_catalog(c, &"Safari".to_string()).is_none());
}

#[test]
fn classification_goes_by_the_text_of_the_path() {
    let gecko = "gd".to_string();
    let chrome = "cd".to_string();
    let b = record_for_hit(&"/opt/firefox-chrome-wrapper/chrome".to_string(), &gecko, &chrome);
    assert_eq!(b.name, "firefox");
    assert_eq!(b.driver_path, "gd");
    let b = record_for_hit(&"/usr/bin/Firefox".to_string(), &gecko, &chrome);
    assert_eq!(b.name, "chrome");
    assert_eq!(b.driver_path, "cd");
    assert_eq!(b.browser_path, "/usr/bin/Firefox");
}

#[test]
fn candidates_are_probed_in_order() {
    assert_eq!(candidate_names(), vec!["firefox", "firefox-bin", "Google Chrome", "chrome"]);
}
