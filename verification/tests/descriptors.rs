use workix_desktop::info::{
    get_app_info, get_app_version, get_system_info, APP_DESCRIPTION, APP_NAME, APP_VERSION,
};

#[test]
fn the_version_is_reported() {
    assert_eq!(get_app_version(), "0.1.0");
    assert_eq!(APP_VERSION, "0.1.0");
}

#[test]
fn the_application_describes_itself() {
    let response = get_app_info("linux", "x86_64");
    assert!(response.success);
    assert_eq!(response.error, None);
    assert!(response.is_consistent());
    let info = response.data.expect("a descriptor");
    assert_eq!(info.name, "Workix Desktop");
    assert_eq!(info.version, "0.1.0");
    assert_eq!(info.description, "EPC Service Management Platform");
    assert_eq!(info.platform, "linux");
    assert_eq!(info.arch, "x86_64");
    assert_eq!(APP_NAME, "Workix Desktop");
    assert_eq!(APP_DESCRIPTION, "EPC Service Management Platform");
}

#[test]
fn the_system_is_described() {
    let response = get_system_info("macos", "aarch64", "unix");
    assert!(response.success);
    assert_eq!(response.error, None);
    assert!(response.is_consistent());
    let info = response.data.expect("a descriptor");
    assert_eq!(info.os, "macos");
    assert_eq!(info.arch, "aarch64");
    assert_eq!(info.family, "unix");
}
