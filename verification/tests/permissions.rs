use openworkers_runtime_deno::Permissions;

#[test]
fn high_resolution_time_is_denied() {
    let mut permissions = Permissions {};
    assert!(!permissions.allow_hrtime());
}

#[test]
fn network_is_allowed() {
    let mut permissions = Permissions {};
    assert!(permissions.check_net("example.com", 443, "fetch()").is_ok());
    assert!(permissions.check_net_url("https://example.com/", "fetch()").is_ok());
}

#[test]
fn files_are_denied() {
    let mut permissions = Permissions {};
    let denied = permissions.check_open("/etc/passwd", "fetch()").unwrap_err();
    assert_eq!(denied.access, "File access not allowed: \"/etc/passwd\"");
    assert_eq!(denied.name, "read");
}

#[test]
fn file_path_is_quoted_and_escaped() {
    let mut permissions = Permissions {};
    let denied = permissions.check_open("a\"b\n", "fetch()").unwrap_err();
    assert_eq!(denied.access, "File access not allowed: \"a\\\"b\\n\"");
}

#[test]
fn vsock_is_denied() {
    let mut permissions = Permissions {};
    let denied = permissions.check_net_vsock(3, 5000, "fetch()").unwrap_err();
    assert_eq!(denied.access, "VSOCK access not allowed");
    assert_eq!(denied.name, "net");
}
