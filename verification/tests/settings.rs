//! Device-scoped settings live outside project directories.

use jueming::application::{SETTINGS_KEY, SETTINGS_STORE_PATH};

#[test]
fn settings_store_is_separate_from_project_layout() {
    assert!(!SETTINGS_STORE_PATH.contains(".jm"));
    assert_eq!(SETTINGS_KEY, "app-settings");
}
