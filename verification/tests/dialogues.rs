//! Whole dialogues with a host.

use std::collections::BTreeMap;
use sysproxy::native::apply_privileged_native;
use sysproxy::parse::parse_proxyauto_from_dict;
use sysproxy::services::{
    get_active_network_service, get_active_network_service_uuid, get_active_proxies_dict,
    get_proxies_by_service_uuid, get_proxies_dict_from_service_uuid,
    get_service_id_by_display_name, resolve_proxies_dict,
};
use sysproxy::{
    Action, Autoproxy, CommandOutput, Dictionary, Error, NetworkService, PropertyValue,
    ProxyConfig, Reply, Step, StoreValue, Sysproxy, Task,
};

/// A host with one service, `Wi-Fi`, which is active.
struct Host {
    store: Option<BTreeMap<String, StoreValue>>,
    service: bool,
    name: Option<String>,
    protocol: bool,
    configuration: Option<Dictionary>,
    /// Actions that are refused.
    refuse: Vec<String>,
    /// The number of the command that fails, where one does.
    failing: Option<usize>,
    staged: Option<Dictionary>,
    commands: Vec<Vec<String>>,
    log: Vec<String>,
}

fn dictionary(pairs: Vec<(&str, PropertyValue)>) -> Dictionary {
    let mut dict = Dictionary::new();
    for (key, value) in pairs {
        dict.set(key.to_string(), value);
    }
    dict
}

fn text(s: &str) -> PropertyValue {
    PropertyValue::Text(s.to_string())
}

fn host() -> Host {
    let mut store = BTreeMap::new();
    store.insert(
        "State:/Network/Global/IPv4".to_string(),
        StoreValue::Dictionary(dictionary(vec![("PrimaryService", text("UUID-1"))])),
    );
    Host {
        store: Some(store),
        service: true,
        name: Some("Wi-Fi".to_string()),
        protocol: true,
        configuration: Some(dictionary(vec![
            ("SOCKSEnable", PropertyValue::Number(Some(1))),
            ("SOCKSProxy", text("old")),
            ("SOCKSPort", PropertyValue::Number(Some(1080))),
            ("FTPPassive", PropertyValue::Number(Some(1))),
        ])),
        refuse: Vec::new(),
        failing: None,
        staged: None,
        commands: Vec::new(),
        log: Vec::new(),
    }
}

fn services() -> Vec<NetworkService> {
    vec![
        NetworkService {
            display_name: None,
            id: Some("UUID-0".to_string()),
        },
        NetworkService {
            display_name: Some("Wi-Fi".to_string()),
            id: Some("UUID-1".to_string()),
        },
        NetworkService {
            display_name: Some("Wi-Fi".to_string()),
            id: Some("UUID-2".to_string()),
        },
        NetworkService {
            display_name: Some("Nameless".to_string()),
            id: None,
        },
    ]
}

impl Host {
    fn allows(&mut self, action: &str) -> Reply {
        self.log.push(action.to_string());
        Reply::Answer(!self.refuse.contains(&action.to_string()))
    }

    fn perform(&mut self, action: Action) -> Reply {
        match action {
            Action::OpenStore => {
                self.log.push("open".to_string());
                Reply::Answer(self.store.is_some())
            }
            Action::ReadStore(key) => {
                self.log.push(format!("store {key}"));
                let found = self.store.as_mut().and_then(|store| store.remove(&key));
                Reply::Stored(found)
            }
            Action::ListServices => {
                self.log.push("list".to_string());
                Reply::Services(services())
            }
            Action::CopyService(id) => {
                let known = match id {
                    PropertyValue::Text(id) => {
                        self.log.push(format!("service {id}"));
                        id == "UUID-1"
                    }
                    other => {
                        self.log.push(format!("service {other:?}"));
                        false
                    }
                };
                Reply::Answer(self.service && known)
            }
            Action::ReadServiceName => {
                self.log.push("name".to_string());
                Reply::Name(self.name.clone())
            }
            Action::CopyProtocol(name) => {
                self.log.push(format!("protocol {name}"));
                Reply::Answer(self.protocol)
            }
            Action::ReadConfiguration => {
                self.log.push("read".to_string());
                Reply::Configuration(self.configuration.clone())
            }
            Action::ReleaseService => {
                self.log.push("release service".to_string());
                Reply::Released
            }
            Action::ReleaseProtocol => {
                self.log.push("release protocol".to_string());
                Reply::Released
            }
            Action::Lock => self.allows("lock"),
            Action::Unlock => self.allows("unlock"),
            Action::SetConfiguration {
                keep_current,
                assignments,
            } => {
                let mut dict = if keep_current {
                    self.configuration.clone().unwrap()
                } else {
                    Dictionary::new()
                };
                for (key, value) in assignments.entries() {
                    dict.set(key.clone(), value.clone());
                }
                self.staged = Some(dict);
                self.allows("set")
            }
            Action::CommitChanges => {
                let reply = self.allows("commit");
                if reply.accepted() {
                    self.configuration = self.staged.take();
                }
                reply
            }
            Action::ApplyChanges => self.allows("apply"),
            Action::Run(args) => {
                let code = if self.failing == Some(self.commands.len()) {
                    14
                } else {
                    0
                };
                self.commands.push(args);
                Reply::Ran(Ok(CommandOutput {
                    success: code == 0,
                    code: Some(code),
                    status: format!("exit status: {code}"),
                    stdout: Vec::new(),
                    stderr: Vec::new(),
                }))
            }
        }
    }

    fn play<T: Task>(&mut self, mut step: Step<T, T::Output>) -> T::Output {
        loop {
            match step {
                Step::Done(output) => return output,
                Step::Ask(task) => {
                    let action = task.action();
                    let shown = task.action();
                    let reply = self.perform(action);
                    assert!(reply.answers(&shown));
                    step = task.reply(reply);
                }
            }
        }
    }
}

fn words(line: &[&str]) -> Vec<String> {
    line.iter().map(|s| s.to_string()).collect()
}

fn proxy() -> Sysproxy {
    Sysproxy {
        enable: true,
        host: "proxy.example.com".to_string(),
        port: 8080,
        bypass: "localhost,*.local".to_string(),
    }
}

#[test]
fn test_get_service_id_by_display_name() {
    let service_uuid = get_service_id_by_display_name(&services(), "Wi-Fi").unwrap();
    assert!(!service_uuid.is_empty());
    assert_eq!(service_uuid, "UUID-1");
    let proxies = host().play(get_proxies_by_service_uuid(text(&service_uuid))).unwrap();
    assert!(!proxies.entries().is_empty());
    assert_eq!(get_service_id_by_display_name(&services(), "Ethernet"), None);
    assert_eq!(get_service_id_by_display_name(&services(), "Nameless"), None);
}

#[test]
fn test_set_bypass() {
    let proxy = Sysproxy {
        host: "proxy.example.com".into(),
        port: 8080,
        enable: true,
        bypass: "no".into(),
    };
    let mut host = host();
    host.failing = Some(0);
    let failure = host.play(proxy.set_bypass("Wi-Fi")).unwrap_err();
    assert!(matches!(
        failure.source(),
        Some(Error::RequiresAdminPrivileges)
    ));
    assert_eq!(
        host.commands,
        vec![words(&["-setproxybypassdomains", "Wi-Fi", "no"])]
    );
}

#[test]
fn network_service_name_from_ptr_preserves_trailing_space() {
    let mut host = host();
    host.name = Some("Wi-Fi ".to_string());
    let service_name = host.play(get_active_network_service()).ok();

    assert_eq!(service_name, Some("Wi-Fi ".to_string()));
}

#[test]
fn the_active_service_is_found_in_the_store() {
    assert!(matches!(
        host().play(get_active_network_service_uuid()),
        Ok(PropertyValue::Text(id)) if id == "UUID-1"
    ));

    let mut closed = host();
    closed.store = None;
    assert!(matches!(
        closed.play(get_active_network_service_uuid()),
        Err(Error::SCDynamicStore)
    ));

    for value in [
        None,
        Some(StoreValue::Other),
        Some(StoreValue::Dictionary(Dictionary::new())),
    ] {
        let mut host = host();
        let store = host.store.as_mut().unwrap();
        store.clear();
        if let Some(value) = value {
            store.insert("State:/Network/Global/IPv4".to_string(), value);
        }
        assert!(matches!(
            host.play(get_active_network_service_uuid()),
            Err(Error::NoActiveNetworkService)
        ));
    }
}

/// A host whose store names the active service by a number.
fn numbered() -> Host {
    let mut host = host();
    host.store.as_mut().unwrap().insert(
        "State:/Network/Global/IPv4".to_string(),
        StoreValue::Dictionary(dictionary(vec![(
            "PrimaryService",
            PropertyValue::Number(Some(7)),
        )])),
    );
    host
}

#[test]
fn an_id_that_is_no_text_is_handed_on() {
    assert!(matches!(
        numbered().play(get_active_network_service_uuid()),
        Ok(PropertyValue::Number(Some(7)))
    ));

    let mut named = numbered();
    assert!(matches!(
        named.play(get_active_network_service()),
        Err(Error::NetworkInterface)
    ));
    assert_eq!(named.log.last().unwrap(), "service Number(Some(7))");

    let mut read = numbered();
    assert!(matches!(
        read.play(get_active_proxies_dict()),
        Err(Error::ParseStr(_))
    ));
    assert_eq!(read.log[2..], words(&["service Number(Some(7))", "open"]));

    let mut written = numbered();
    assert!(matches!(
        written.play(apply_privileged_native(&config())),
        Err(Error::SystemConfiguration("resolve active network service"))
    ));
    assert_eq!(
        written.log[2..],
        words(&["lock", "service Number(Some(7))", "unlock"])
    );
}

#[test]
fn a_service_without_a_name_is_released_and_refused() {
    let mut nameless = host();
    nameless.name = None;
    assert!(matches!(
        nameless.play(get_active_network_service()),
        Err(Error::NetworkInterface)
    ));
    assert_eq!(nameless.log.last().unwrap(), "release service");

    let mut absent = host();
    absent.service = false;
    assert!(matches!(
        absent.play(get_active_network_service()),
        Err(Error::NetworkInterface)
    ));
    assert_eq!(absent.log.last().unwrap(), "service UUID-1");
}

#[test]
fn preferences_release_what_they_copied() {
    let mut complete = host();
    assert!(complete.play(get_proxies_by_service_uuid(text("UUID-1"))).is_ok());
    assert_eq!(
        complete.log,
        words(&[
            "service UUID-1",
            "protocol Proxies",
            "read",
            "release service",
            "release protocol",
        ])
    );

    let mut unconfigured = host();
    unconfigured.configuration = None;
    assert!(matches!(
        unconfigured.play(get_proxies_by_service_uuid(text("UUID-1"))),
        Err(Error::SCPreferences)
    ));
    assert_eq!(
        unconfigured.log[3..],
        words(&["release service", "release protocol"])
    );

    let mut without = host();
    without.protocol = false;
    assert!(matches!(
        without.play(get_proxies_by_service_uuid(text("UUID-1"))),
        Err(Error::SCPreferences)
    ));
    assert_eq!(without.log[2..], words(&["release service"]));

    assert!(matches!(
        host().play(get_proxies_by_service_uuid(text("UUID-9"))),
        Err(Error::SCPreferences)
    ));
}

#[test]
fn the_store_stands_in_for_the_preferences() {
    let mut host = host();
    host.protocol = false;
    host.store.as_mut().unwrap().insert(
        "Setup:/Network/Service/UUID-1/Proxies".to_string(),
        StoreValue::Dictionary(dictionary(vec![
            ("HTTPEnable", PropertyValue::Number(Some(1))),
            ("HTTPProxy", text("stored")),
            ("HTTPPort", PropertyValue::Number(Some(3128))),
        ])),
    );
    let proxy = host.play(Sysproxy::get_system_proxy()).unwrap();
    assert_eq!(proxy.host, "stored");
    assert_eq!(proxy.port, 3128);
    assert!(proxy.enable);
    assert_eq!(
        host.log.last().unwrap(),
        "store Setup:/Network/Service/UUID-1/Proxies"
    );
}

#[test]
fn settings_that_are_nowhere_are_reported() {
    let mut nowhere = host();
    nowhere.protocol = false;
    match nowhere.play(resolve_proxies_dict(text("UUID-1"))) {
        Err(Error::ParseStr(message)) => assert_eq!(
            message,
            "Proxy settings not found in preferences or DynamicStore"
        ),
        other => panic!("unexpected outcome: {other:?}"),
    }

    let mut odd = host();
    odd.protocol = false;
    odd.store.as_mut().unwrap().insert(
        "Setup:/Network/Service/UUID-1/Proxies".to_string(),
        StoreValue::Other,
    );
    match odd.play(resolve_proxies_dict(text("UUID-1"))) {
        Err(Error::ParseStr(message)) => assert_eq!(message, "Not a dictionary"),
        other => panic!("unexpected outcome: {other:?}"),
    }

    let mut closed = host();
    closed.protocol = false;
    closed.store = None;
    assert!(matches!(
        closed.play(resolve_proxies_dict(text("UUID-1"))),
        Err(Error::SCDynamicStore)
    ));
}

#[test]
fn settings_of_a_named_service_are_read() {
    let proxy = host().play(Sysproxy::get_socks("Wi-Fi", None)).unwrap();
    assert_eq!(proxy.host, "old");
    assert_eq!(proxy.port, 1080);
    assert_eq!(host().play(Sysproxy::get_bypass("Wi-Fi", None)).unwrap(), "");
    assert!(!host().play(Sysproxy::get_http("Wi-Fi", None)).unwrap().enable);
    assert!(!host().play(Sysproxy::get_https("Wi-Fi", None)).unwrap().enable);
    assert!(host().play(get_proxies_dict_from_service_uuid("Wi-Fi")).is_ok());
    for name in ["Ethernet", "Nameless"] {
        assert!(matches!(
            host().play(get_proxies_dict_from_service_uuid(name)),
            Err(Error::NetworkInterface)
        ));
    }
}

#[test]
fn the_active_service_is_read() {
    let proxy = host().play(Sysproxy::get_system_proxy()).unwrap();
    assert_eq!(proxy.host, "old");
    let all = host().play(Sysproxy::snapshot()).unwrap();
    assert!(all.socks.enable && !all.http.switched_on);
    assert!(!host().play(Autoproxy::get_auto_proxy()).unwrap().enable);
    assert!(host().play(get_active_proxies_dict()).is_ok());
}

#[test]
fn the_system_proxy_is_written_command_by_command() {
    let mut host = host();
    host.play(proxy().set_system_proxy()).unwrap();
    assert_eq!(
        host.commands,
        vec![
            words(&["-setsocksfirewallproxy", "Wi-Fi", "proxy.example.com", "8080"]),
            words(&["-setsocksfirewallproxystate", "Wi-Fi", "on"]),
            words(&["-setsecurewebproxy", "Wi-Fi", "proxy.example.com", "8080"]),
            words(&["-setsecurewebproxystate", "Wi-Fi", "on"]),
            words(&["-setwebproxy", "Wi-Fi", "proxy.example.com", "8080"]),
            words(&["-setwebproxystate", "Wi-Fi", "on"]),
            words(&["-setproxybypassdomains", "Wi-Fi", "localhost", "*.local"]),
        ]
    );
    assert_eq!(
        host.log,
        words(&[
            "open",
            "store State:/Network/Global/IPv4",
            "service UUID-1",
            "name",
            "release service",
        ])
    );
}

#[test]
fn writing_stops_at_the_first_failure() {
    for failing in 0..7 {
        let mut host = host();
        host.failing = Some(failing);
        let failure = host.play(proxy().set_system_proxy()).unwrap_err();
        assert_eq!(host.commands.len(), failing + 1);
        assert_eq!(
            failure.message(),
            format!("proxy write failed: {failing} of 7 writes completed")
        );
        assert!(matches!(
            failure.source(),
            Some(Error::RequiresAdminPrivileges)
        ));
    }
}

#[test]
fn without_an_active_service_nothing_is_written() {
    let mut host = host();
    host.store = None;
    assert!(matches!(
        host.play(proxy().set_system_proxy()),
        Err(Error::SCDynamicStore)
    ));
    assert!(host.commands.is_empty());
}

#[test]
fn one_protocol_is_written_with_two_commands() {
    let off = Sysproxy {
        enable: false,
        bypass: String::new(),
        ..proxy()
    };
    let mut host = host();
    host.play(off.set_http("S")).unwrap();
    host.play(off.set_https("S")).unwrap();
    host.play(off.set_socks("S")).unwrap();
    host.play(off.set_bypass("S")).unwrap();
    assert_eq!(
        host.commands,
        vec![
            words(&["-setwebproxy", "S", "proxy.example.com", "8080"]),
            words(&["-setwebproxystate", "S", "off"]),
            words(&["-setsecurewebproxy", "S", "proxy.example.com", "8080"]),
            words(&["-setsecurewebproxystate", "S", "off"]),
            words(&["-setsocksfirewallproxy", "S", "proxy.example.com", "8080"]),
            words(&["-setsocksfirewallproxystate", "S", "off"]),
            words(&["-setproxybypassdomains", "S"]),
        ]
    );
}

#[test]
fn automatic_configuration_is_written() {
    let mut host = host();
    let auto = Autoproxy {
        enable: true,
        url: "http://pac".to_string(),
    };
    let none = Autoproxy {
        enable: false,
        url: String::new(),
    };
    host.play(auto.set_auto_proxy()).unwrap();
    host.store = sysproxy_store();
    host.play(none.set_auto_proxy()).unwrap();
    assert_eq!(
        host.commands,
        vec![
            words(&["-setautoproxyurl", "Wi-Fi", "http://pac"]),
            words(&["-setautoproxystate", "Wi-Fi", "on"]),
            words(&["-setautoproxyurl", "Wi-Fi", "\"\""]),
            words(&["-setautoproxystate", "Wi-Fi", "off"]),
        ]
    );
}

#[test]
fn an_address_that_was_written_is_read_back() {
    for url in ["", "http://pac"] {
        let mut host = host();
        let auto = Autoproxy {
            enable: true,
            url: url.to_string(),
        };
        host.play(auto.set_auto_proxy()).unwrap();
        let written = host.commands[0][2].clone();
        let dict = dictionary(vec![("ProxyAutoConfigURLString", text(&written))]);
        assert_eq!(parse_proxyauto_from_dict(&dict).unwrap().url, url);
    }
}

fn sysproxy_store() -> Option<BTreeMap<String, StoreValue>> {
    host().store
}

#[test]
fn the_lock_is_tried_and_given_back() {
    let mut free = host();
    assert!(free.play(Sysproxy::can_lock_scpreferences()));
    assert_eq!(free.log, words(&["lock", "unlock"]));

    let mut stuck = host();
    stuck.refuse = words(&["unlock"]);
    assert!(stuck.play(Sysproxy::can_lock_scpreferences()));

    let mut taken = host();
    taken.refuse = words(&["lock"]);
    assert!(!taken.play(Sysproxy::can_lock_scpreferences()));
    assert_eq!(taken.log, words(&["lock"]));
}

fn config() -> ProxyConfig {
    ProxyConfig {
        system: proxy(),
        auto: Autoproxy {
            enable: true,
            url: "http://pac".to_string(),
        },
    }
}

#[test]
fn a_transaction_is_read_back() {
    for configured in [true, false] {
        let mut host = host();
        if !configured {
            host.configuration = None;
        }
        host.play(apply_privileged_native(&config())).unwrap();
        assert_eq!(
            host.log,
            words(&[
                "open",
                "store State:/Network/Global/IPv4",
                "lock",
                "service UUID-1",
                "protocol Proxies",
                "release service",
                "read",
                "set",
                "commit",
                "apply",
                "unlock",
                "release protocol",
            ])
        );
        assert!(host.commands.is_empty());
        host.store = sysproxy_store();
        assert_eq!(host.play(Sysproxy::get_system_proxy()).unwrap(), proxy());
        host.store = sysproxy_store();
        let all = host.play(Sysproxy::snapshot()).unwrap();
        assert_eq!(all.auto, config().auto);
        assert!(all.auto_switched_on);
        assert_eq!(all.bypass, "localhost,*.local");
        assert_eq!(all.http, all.socks);
        assert_eq!(all.https, all.socks);
        assert_eq!(
            host.configuration.unwrap().find("FTPPassive").is_some(),
            configured
        );
    }
}

#[test]
fn an_empty_bypass_list_is_read_back_as_empty() {
    let mut host = host();
    let mut config = config();
    config.system.bypass = String::new();
    host.play(apply_privileged_native(&config)).unwrap();
    host.store = sysproxy_store();
    assert_eq!(host.play(Sysproxy::get_system_proxy()).unwrap().bypass, "");
    assert!(matches!(
        host.configuration.unwrap().find("ExceptionsList"),
        Some(PropertyValue::List(items)) if items.is_empty()
    ));
}

#[test]
fn a_refused_transaction_gives_back_what_it_took() {
    let cases = vec![
        ("lock", "lock preferences", vec!["lock"]),
        (
            "set",
            "stage proxy configuration",
            vec!["set", "unlock", "release protocol"],
        ),
        (
            "commit",
            "commit proxy configuration",
            vec!["commit", "unlock", "release protocol"],
        ),
        (
            "apply",
            "apply proxy configuration",
            vec!["apply", "unlock", "release protocol"],
        ),
        (
            "unlock",
            "unlock preferences",
            vec!["unlock", "unlock", "release protocol"],
        ),
    ];
    for (refused, step, tail) in cases {
        let mut host = host();
        host.refuse = words(&[refused]);
        match host.play(apply_privileged_native(&config())) {
            Err(Error::SystemConfiguration(what)) => assert_eq!(what, step),
            other => panic!("unexpected outcome: {other:?}"),
        }
        assert_eq!(host.log[host.log.len() - tail.len()..], words(&tail));
    }
}

#[test]
fn a_transaction_without_service_or_protocol_is_given_up() {
    let mut absent = host();
    absent.service = false;
    assert!(matches!(
        absent.play(apply_privileged_native(&config())),
        Err(Error::SystemConfiguration("resolve active network service"))
    ));
    assert_eq!(absent.log[2..], words(&["lock", "service UUID-1", "unlock"]));

    let mut without = host();
    without.protocol = false;
    assert!(matches!(
        without.play(apply_privileged_native(&config())),
        Err(Error::SystemConfiguration("resolve proxy protocol"))
    ));
    assert_eq!(
        without.log[4..],
        words(&["protocol Proxies", "release service", "unlock"])
    );

    let mut closed = host();
    closed.store = None;
    assert!(matches!(
        closed.play(apply_privileged_native(&config())),
        Err(Error::SCDynamicStore)
    ));
    assert_eq!(closed.log, words(&["open"]));
}
