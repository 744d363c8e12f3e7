use pool_contention::config::{
    listen_address, parse_unsigned, pool_settings, setting_u32, setting_u64, PoolSettings,
    DEFAULT_CONNECT_TIMEOUT_SECS, DEFAULT_MAX_CONNECTIONS, DEFAULT_MIN_CONNECTIONS,
    IDLE_TIMEOUT_SECS,
};

#[test]
fn defaults() {
    assert_eq!(DEFAULT_MAX_CONNECTIONS, 10);
    assert_eq!(DEFAULT_MIN_CONNECTIONS, 2);
    assert_eq!(DEFAULT_CONNECT_TIMEOUT_SECS, 60);
    assert_eq!(IDLE_TIMEOUT_SECS, 1800);
    assert_eq!(
        pool_settings(None, None, None),
        PoolSettings {
            max_connections: 10,
            min_connections: 2,
            connect_timeout_secs: 60,
            idle_timeout_secs: 1800,
        }
    );
}

#[test]
fn given_settings_are_taken() {
    assert_eq!(
        pool_settings(Some("1"), Some("0"), Some("3")),
        PoolSettings {
            max_connections: 1,
            min_connections: 0,
            connect_timeout_secs: 3,
            idle_timeout_secs: 1800,
        }
    );
}

#[test]
fn settings_that_are_no_numbers_fall_back() {
    assert_eq!(
        pool_settings(Some("ten"), Some(""), Some("-1")),
        PoolSettings {
            max_connections: 10,
            min_connections: 2,
            connect_timeout_secs: 60,
            idle_timeout_secs: 1800,
        }
    );
    assert_eq!(pool_settings(Some("4294967296"), None, None).max_connections, 10);
    assert_eq!(pool_settings(Some("4294967295"), None, None).max_connections, 4294967295);
    assert_eq!(
        pool_settings(None, None, Some("18446744073709551616")).connect_timeout_secs,
        60
    );
    assert_eq!(
        pool_settings(None, None, Some("18446744073709551615")).connect_timeout_secs,
        18446744073709551615
    );
}

#[test]
fn parse_unsigned_reads_what_std_reads() {
    let texts = [
        "", "0", "7", "10", "007", "+5", "+", "++5", "-5", "-", "5+", " 5", "5 ", "1_000", "12a",
        "a12", "٣", "１２", "4294967295", "4294967296", "18446744073709551615",
        "18446744073709551616", "99999999999999999999999999", "+0", "+18446744073709551615",
        "0x10", "1e3", "1.0", "\n", "00000000000000000000000000000001",
    ];
    for text in texts {
        assert_eq!(parse_unsigned(text, u64::MAX), text.parse::<u64>().ok(), "{:?}", text);
        assert_eq!(
            parse_unsigned(text, u32::MAX as u64),
            text.parse::<u32>().ok().map(u64::from),
            "{:?}",
            text
        );
        assert_eq!(setting_u32(Some(text), 10), text.parse::<u32>().unwrap_or(10), "{:?}", text);
        assert_eq!(setting_u64(Some(text), 60), text.parse::<u64>().unwrap_or(60), "{:?}", text);
    }
}

#[test]
fn parse_unsigned_keeps_to_its_bound() {
    assert_eq!(parse_unsigned("123", 123), Some(123));
    assert_eq!(parse_unsigned("124", 123), None);
    assert_eq!(parse_unsigned("0", 0), Some(0));
    assert_eq!(parse_unsigned("1", 0), None);
    assert_eq!(parse_unsigned("+42", 100), Some(42));
}

#[test]
fn absent_settings_fall_back() {
    assert_eq!(setting_u32(None, 10), 10);
    assert_eq!(setting_u64(None, 60), 60);
}

#[test]
fn listen_address_takes_the_port_as_given() {
    assert_eq!(listen_address(None), "0.0.0.0:8443");
    assert_eq!(listen_address(Some("8080")), "0.0.0.0:8080");
    assert_eq!(listen_address(Some("")), "0.0.0.0:");
    assert_eq!(listen_address(Some("https")), "0.0.0.0:https");
}

#[test]
fn render_decimal_writes_what_std_writes_and_reads_back() {
    let numbers = [0usize, 1, 9, 10, 11, 99, 100, 101, 1800, 8443, 65535, 4294967295, usize::MAX];
    for n in numbers {
        let text = pool_contention::decimal::render_decimal(n);
        assert_eq!(text, n.to_string());
        assert_eq!(parse_unsigned(&text, u64::MAX), Some(n as u64));
    }
}
