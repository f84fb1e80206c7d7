use handsfreectl::endpoint::{
    fallback_socket_path, get_socket_path, resolve_socket_path, runtime_socket_path, socket_dir,
};

#[test]
fn runtime_dir_gives_socket_under_handsfree() {
    assert_eq!(socket_dir("/run/user/1000"), "/run/user/1000/handsfree");
    assert_eq!(runtime_socket_path("/run/user/1000"), "/run/user/1000/handsfree/daemon.sock");
    assert_eq!(runtime_socket_path("/run/user/1000/"), "/run/user/1000/handsfree/daemon.sock");
    assert_eq!(
        resolve_socket_path(Some("/run/user/42"), 42),
        "/run/user/42/handsfree/daemon.sock"
    );
}

#[test]
fn runtime_socket_path_joins_as_path_buf_does() {
    for dir in ["/tmp/x", "/tmp/x/", "relative", "/"] {
        let want = std::path::Path::new(dir).join("handsfree").join("daemon.sock");
        assert_eq!(runtime_socket_path(dir), want.to_str().unwrap());
    }
}

#[test]
fn fallback_is_per_user_under_tmp() {
    assert_eq!(fallback_socket_path(0), "/tmp/handsfree-0.sock");
    assert_eq!(fallback_socket_path(1000), "/tmp/handsfree-1000.sock");
    assert_eq!(fallback_socket_path(u32::MAX), "/tmp/handsfree-4294967295.sock");
    assert_eq!(resolve_socket_path(None, 501), "/tmp/handsfree-501.sock");
}

#[test]
fn get_socket_path_uses_the_effective_uid() {
    let uid = users::get_effective_uid();
    assert_eq!(get_socket_path(None), format!("/tmp/handsfree-{}.sock", uid));
    assert_eq!(get_socket_path(Some("/r")), "/r/handsfree/daemon.sock");
}
