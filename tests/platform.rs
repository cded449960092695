use browser_manager::get_available_browsers;

#[test]
fn browsers_available_on_each_platform() {
    // We need to mostly check that we don't get Safari on other platforms
    let elsewhere = get_available_browsers(false);
    assert!(elsewhere.iter().all(|b| b.name != "Safari"));

    // Safari is always available on Mac.
    let on_mac = get_available_browsers(true);
    assert!(on_mac.len() >= 1);
    assert_eq!(on_mac.len(), elsewhere.len() + 1);
    assert_eq!(on_mac.last().unwrap().name, "Safari");
    assert_eq!(on_mac.last().unwrap().driver_path, "/usr/bin/safaridriver");
}
