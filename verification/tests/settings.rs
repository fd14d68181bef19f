//! Reading settings dictionaries.

use sysproxy::parse::{
    parse_bypass_from_dict, parse_proxies_from_dict, parse_proxyauto_from_dict, read_bool_flag,
    read_host, read_port, read_snapshot, read_system_proxy,
};
use sysproxy::{Dictionary, PropertyValue, ProxyType, Step, Sysproxy};

fn number(n: i32) -> PropertyValue {
    PropertyValue::Number(Some(n))
}

fn text(s: &str) -> PropertyValue {
    PropertyValue::Text(s.to_string())
}

fn dictionary(pairs: Vec<(&str, PropertyValue)>) -> Dictionary {
    let mut dict = Dictionary::new();
    for (key, value) in pairs {
        dict.set(key.to_string(), value);
    }
    dict
}

#[test]
fn parse_proxy_missing_fields_disable_proxy() {
    let dict = dictionary(vec![("HTTPEnable", number(1))]);
    let proxy = parse_proxies_from_dict(&dict, ProxyType::Http).unwrap();
    assert!(!proxy.enable);
    assert_eq!(proxy.host, "");
    assert_eq!(proxy.port, 0);
}

#[test]
fn parse_proxy_negative_port_zeroed() {
    let dict = dictionary(vec![
        ("HTTPEnable", number(1)),
        ("HTTPProxy", text("localhost")),
        ("HTTPPort", number(-1)),
    ]);
    let proxy = parse_proxies_from_dict(&dict, ProxyType::Http).unwrap();
    assert!(!proxy.enable);
    assert_eq!(proxy.port, 0);
}

#[test]
fn parse_proxy_too_large_port_zeroed() {
    let dict = dictionary(vec![
        ("HTTPEnable", number(1)),
        ("HTTPProxy", text("localhost")),
        ("HTTPPort", number(i32::MAX)),
    ]);
    let proxy = parse_proxies_from_dict(&dict, ProxyType::Http).unwrap();
    assert!(!proxy.enable);
    assert_eq!(proxy.port, 0);
}

#[test]
fn parse_bypass_missing_returns_empty() {
    let dict = dictionary(vec![]);
    let bypass = parse_bypass_from_dict(&dict).unwrap();
    assert!(bypass.is_empty());
}

#[test]
fn parse_proxyauto_defaults_to_false_and_empty_url() {
    let dict = dictionary(vec![]);
    let auto = parse_proxyauto_from_dict(&dict).unwrap();
    assert!(!auto.enable);
    assert_eq!(auto.url, "");
}

#[test]
fn parse_proxyauto_disable_when_url_missing() {
    let dict = dictionary(vec![("ProxyAutoConfigEnable", number(1))]);
    let auto = parse_proxyauto_from_dict(&dict).unwrap();
    assert!(!auto.enable);
    assert_eq!(auto.url, "");
}

#[test]
fn quotation_marks_are_no_address() {
    let dict = dictionary(vec![
        ("ProxyAutoConfigEnable", number(1)),
        ("ProxyAutoConfigURLString", text("\"\"")),
    ]);
    let auto = parse_proxyauto_from_dict(&dict).unwrap();
    assert!(!auto.enable);
    assert_eq!(auto.url, "");
}

#[test]
fn complete_settings_are_read() {
    let dict = dictionary(vec![
        ("HTTPSEnable", number(-2)),
        ("HTTPSProxy", text("proxy.example.com")),
        ("HTTPSPort", number(65535)),
        ("ProxyAutoConfigEnable", number(1)),
        ("ProxyAutoConfigURLString", text("http://pac")),
    ]);
    let proxy = parse_proxies_from_dict(&dict, ProxyType::Https).unwrap();
    assert_eq!(
        proxy,
        Sysproxy {
            enable: true,
            host: "proxy.example.com".to_string(),
            port: 65535,
            bypass: String::new(),
        }
    );
    let auto = parse_proxyauto_from_dict(&dict).unwrap();
    assert!(auto.enable);
    assert_eq!(auto.url, "http://pac");
}

#[test]
fn values_of_another_type_count_as_missing() {
    let dict = dictionary(vec![
        ("HTTPEnable", text("1")),
        ("HTTPProxy", number(1)),
        ("HTTPPort", PropertyValue::Number(None)),
        ("ExceptionsList", PropertyValue::Other),
    ]);
    assert!(!read_bool_flag(&dict, "HTTPEnable"));
    assert_eq!(read_host(&dict, "HTTPProxy"), "");
    assert_eq!(read_port(&dict, "HTTPPort"), 0);
    assert!(parse_bypass_from_dict(&dict).unwrap().is_empty());
}

#[test]
fn bypass_items_that_are_no_texts_are_passed_over() {
    let dict = dictionary(vec![(
        "ExceptionsList",
        PropertyValue::List(vec![
            Some("*.local".to_string()),
            None,
            Some("169.254/16".to_string()),
        ]),
    )]);
    assert_eq!(
        parse_bypass_from_dict(&dict).unwrap(),
        vec!["*.local".to_string(), "169.254/16".to_string()]
    );
    assert_eq!(read_system_proxy(&dict).unwrap().bypass, "*.local,169.254/16");
}

#[test]
fn a_later_assignment_overrides_an_earlier_one() {
    let dict = dictionary(vec![("HTTPPort", number(1)), ("HTTPPort", number(2))]);
    assert_eq!(read_port(&dict, "HTTPPort"), 2);
    assert_eq!(dict.entries().len(), 2);
    assert!(matches!(
        dict.clone().find("HTTPPort"),
        Some(PropertyValue::Number(Some(2)))
    ));
    assert!(dict.find("HTTPProxy").is_none());
}

fn one(prefix: &str, host: &str, port: i32, enable: i32) -> Vec<(String, PropertyValue)> {
    vec![
        (format!("{prefix}Enable"), number(enable)),
        (format!("{prefix}Proxy"), text(host)),
        (format!("{prefix}Port"), number(port)),
    ]
}

fn three(socks: i32, https: i32, http: i32) -> Dictionary {
    let mut dict = Dictionary::new();
    let mut all = one("SOCKS", "socks", 1, socks);
    all.extend(one("HTTPS", "https", 2, https));
    all.extend(one("HTTP", "http", 3, http));
    for (key, value) in all {
        dict.set(key, value);
    }
    dict
}

#[test]
fn the_proxy_in_use_is_socks_then_https_then_http() {
    let cases = vec![
        ((1, 1, 1), "socks", 1, true),
        ((0, 1, 1), "https", 2, true),
        ((0, 0, 1), "http", 3, true),
        ((0, 0, 0), "socks", 1, false),
    ];
    for ((socks, https, http), host, port, enable) in cases {
        let proxy = read_system_proxy(&three(socks, https, http)).unwrap();
        assert_eq!(proxy.host, host);
        assert_eq!(proxy.port, port);
        assert_eq!(proxy.enable, enable);
    }
}

#[test]
fn a_snapshot_keeps_switch_and_usability_apart() {
    let mut dict = three(1, 0, 1);
    dict.set("HTTPPort".to_string(), number(0));
    dict.set("ProxyAutoConfigEnable".to_string(), number(1));
    let all = read_snapshot(&dict).unwrap();
    assert!(all.socks.enable && all.socks.switched_on);
    assert!(!all.https.enable && !all.https.switched_on);
    assert!(!all.http.enable && all.http.switched_on);
    assert_eq!(all.http.host, "http");
    assert!(!all.auto.enable && all.auto_switched_on);
    assert_eq!(all.bypass, "");
}

#[test]
fn a_dictionary_at_hand_is_read_at_once() {
    let mut dict = three(1, 1, 1);
    dict.set(
        "ExceptionsList".to_string(),
        PropertyValue::List(vec![Some("a".to_string()), Some("b".to_string())]),
    );
    match Sysproxy::get_http("Wi-Fi", Some(&dict)) {
        Step::Done(proxy) => assert_eq!(proxy.unwrap().host, "http"),
        Step::Ask(_) => panic!("nothing to ask for"),
    }
    match Sysproxy::get_https("Wi-Fi", Some(&dict)) {
        Step::Done(proxy) => assert_eq!(proxy.unwrap().host, "https"),
        Step::Ask(_) => panic!("nothing to ask for"),
    }
    match Sysproxy::get_socks("Wi-Fi", Some(&dict)) {
        Step::Done(proxy) => assert_eq!(proxy.unwrap().host, "socks"),
        Step::Ask(_) => panic!("nothing to ask for"),
    }
    match Sysproxy::get_bypass("Wi-Fi", Some(&dict)) {
        Step::Done(bypass) => assert_eq!(bypass.unwrap(), "a,b"),
        Step::Ask(_) => panic!("nothing to ask for"),
    }
}
