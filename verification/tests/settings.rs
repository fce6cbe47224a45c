use observatory::settings::{address, settings};

fn some(s: &str) -> Option<String> {
    Some(s.to_string())
}

#[test]
fn defaults_of_the_settings() {
    let s = settings(None, None, None, None);
    assert_eq!(s.host, "127.0.0.1");
    assert_eq!(s.port, 9090);
    assert_eq!(s.txtme_url, None);
    assert_eq!(s.interval_secs, 30);
    assert_eq!(address(&s), "127.0.0.1:9090");
}

#[test]
fn settings_out_of_the_environment() {
    let s = settings(some("0.0.0.0"), some("80"), some("http://t"), some("5"));
    assert_eq!(address(&s), "0.0.0.0:80");
    assert_eq!(s.txtme_url, some("http://t"));
    assert_eq!(s.interval_secs, 5);
}

#[test]
fn settings_that_are_no_numbers() {
    let s = settings(some(""), some("65536"), None, some("5s"));
    assert_eq!(s.host, "");
    assert_eq!(s.port, 9090);
    assert_eq!(s.interval_secs, 30);
    let s = settings(None, some(" 80"), None, some("-1"));
    assert_eq!(s.port, 9090);
    assert_eq!(s.interval_secs, 30);
    let s = settings(None, some("+80"), None, some("18446744073709551615"));
    assert_eq!(s.port, 80);
    assert_eq!(s.interval_secs, u64::MAX);
}
