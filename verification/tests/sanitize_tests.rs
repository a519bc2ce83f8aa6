use gewe_cc::sanitize::{sanitize_listen_addr, sanitize_wxid};

#[test]
fn test_sanitize_wxid() {
    assert_eq!(sanitize_wxid("wxid_mly499mvz23o21"), "wxid_***o21");
    assert_eq!(sanitize_wxid("wxid_abc"), "wxid_***abc");
    assert_eq!(sanitize_wxid("wxid_abcdefgh"), "wxid_***fgh");
    assert_eq!(sanitize_wxid(""), "");

    assert_eq!(sanitize_wxid("user123456789"), "user12***789");
    assert_eq!(sanitize_wxid("short"), "short");
}

#[test]
fn test_sanitize_listen_addr() {
    assert_eq!(sanitize_listen_addr("0.0.0.0:4399"), "0.0.0.0:4399");
    assert_eq!(sanitize_listen_addr("127.0.0.1:4399"), "127.0.0.1:4399");
    assert_eq!(sanitize_listen_addr("localhost:4399"), "localhost:4399");
    assert_eq!(sanitize_listen_addr("::1:4399"), "::1:4399");

    assert_eq!(sanitize_listen_addr("192.168.1.100:4399"), "*.*.*.*:4399");
    assert_eq!(sanitize_listen_addr("10.0.0.5:8080"), "*.*.*.*:8080");
    assert_eq!(sanitize_listen_addr("172.16.0.1:3000"), "*.*.*.*:3000");

    assert_eq!(sanitize_listen_addr("0.0.0.0"), "0.0.0.0");
    assert_eq!(sanitize_listen_addr("192.168.1.1"), "*.*.*.*");
}
