use rsync_core::launch_agent::{app_bundle_path, auto_start_enabled_in, generate_plist_content, get_plist_path, is_auto_start_enabled, plist_path_in};

#[test]
fn test_plist_generation() {
    let content = generate_plist_content("/Applications/RSync.app");
    assert!(content.contains("com.oushima.rsync"));
    assert!(content.contains("/usr/bin/open"));
    assert!(content.contains("RunAtLoad"));
}

#[test]
fn test_plist_generation_dev_mode() {
    let content = generate_plist_content("/path/to/rsync");
    assert!(content.contains("com.oushima.rsync"));
    assert!(content.contains("/path/to/rsync"));
    assert!(!content.contains("/usr/bin/open"));
}

#[test]
fn plist_is_well_formed_text() {
    let content = generate_plist_content("/Applications/RSync.app");
    assert!(content.starts_with("<?xml version=\"1.0\" encoding=\"UTF-8\"?>\n"));
    assert!(content.ends_with("</dict>\n</plist>\n"));
    assert!(content.contains("<string>-a</string>\n        <string>/Applications/RSync.app</string>"));
}

#[test]
fn bundle_path_is_cut_after_first_app_directory() {
    assert_eq!(app_bundle_path("/Applications/RSync.app/Contents/MacOS/rsync"), "/Applications/RSync.app");
    assert_eq!(app_bundle_path("/usr/local/bin/rsync"), "/usr/local/bin/rsync");
    assert_eq!(app_bundle_path("/a.app/b.app/c"), "/a.app");
}

#[test]
fn plist_path_sits_in_launch_agents() {
    if let Some(p) = get_plist_path() {
        assert!(p.ends_with("Library/LaunchAgents/com.oushima.rsync.plist"));
    }
}

#[test]
fn auto_start_follows_the_agent_file() {
    let expected = get_plist_path().map(|p| std::path::Path::new(&p).exists()).unwrap_or(false);
    assert_eq!(is_auto_start_enabled(), expected);
}

#[test]
fn no_home_means_no_agent() {
    assert!(!auto_start_enabled_in(None));
    assert_eq!(plist_path_in(None), None);
    assert_eq!(plist_path_in(Some("/Users/me")), Some("/Users/me/Library/LaunchAgents/com.oushima.rsync.plist".to_string()));
}
