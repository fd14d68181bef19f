//! What the entries of a settings dictionary mean, key by key, when it is read and when it is
//! written.

use crate::parse::Settings;
use crate::property::{PropertyValue, PropertyView};
use crate::proxy::{ProxyConfigView, ProxyType};
use crate::{laws, native, networksetup, parse, property, text};
use vstd::prelude::*;

verus! {

/// The name that a protocol goes by in the keys of a settings dictionary.
pub open spec fn key_name(t: ProxyType) -> Seq<char> {
    match t {
        ProxyType::Http => "HTTP"@,
        ProxyType::Https => "HTTPS"@,
        ProxyType::Socks => "SOCKS"@,
    }
}

/// The keys of a protocol are its name, followed by what stands under them.
pub proof fn keys_are_made_of_the_name(t: ProxyType)
    ensures
        t.enable_key() == key_name(t) + "Enable"@,
        t.host_key() == key_name(t) + "Proxy"@,
        t.port_key() == key_name(t) + "Port"@,
{
    reveal_strlit("HTTP");
    reveal_strlit("HTTPS");
    reveal_strlit("SOCKS");
    reveal_strlit("Enable");
    reveal_strlit("Proxy");
    reveal_strlit("Port");
    reveal_strlit("HTTPEnable");
    reveal_strlit("HTTPSEnable");
    reveal_strlit("SOCKSEnable");
    reveal_strlit("HTTPProxy");
    reveal_strlit("HTTPSProxy");
    reveal_strlit("SOCKSProxy");
    reveal_strlit("HTTPPort");
    reveal_strlit("HTTPSPort");
    reveal_strlit("SOCKSPort");
    assert(t.enable_key() =~= key_name(t) + "Enable"@);
    assert(t.host_key() =~= key_name(t) + "Proxy"@);
    assert(t.port_key() =~= key_name(t) + "Port"@);
}

/// No two of the keys are the same: neither two of one protocol, nor any two of two protocols.
pub proof fn keys_differ(t: ProxyType, u: ProxyType)
    ensures
        t.enable_key() != u.host_key(),
        t.enable_key() != u.port_key(),
        t.host_key() != u.port_key(),
        t != u ==> t.enable_key() != u.enable_key() && t.host_key() != u.host_key() && t.port_key()
            != u.port_key(),
{
    laws::keys_are_apart();
}

/// A number is a switch that is on unless it is zero, and a port if it is in range.
pub proof fn numbers_are_switches_and_ports(settings: Settings, key: Seq<char>, n: i32)
    requires
        settings.contains_key(key),
        settings[key] == PropertyView::Number(Some(n)),
    ensures
        parse::number_at(settings, key) == Some(n),
        parse::flag_at(settings, key) == (n != 0),
        0 <= n <= 65535 ==> parse::port_at(settings, key) == n,
        n < 0 || n > 65535 ==> parse::port_at(settings, key) == 0,
{
}

/// What is missing, is no number or is too large a number is a switch that is off, and no port.
pub proof fn other_values_are_no_numbers(settings: Settings, key: Seq<char>)
    requires
        settings.contains_key(key) && settings[key] is Number ==> settings[key]->Number_0 is None,
    ensures
        parse::number_at(settings, key) is None,
        !parse::flag_at(settings, key),
        parse::port_at(settings, key) == 0,
{
}

/// A text is read as it stands.
pub proof fn texts_are_read(settings: Settings, key: Seq<char>, s: Seq<char>)
    requires
        settings.contains_key(key),
        settings[key] == PropertyView::Text(s),
    ensures
        parse::text_at(settings, key) == s,
{
}

/// What is missing or is no text is read as the empty text.
pub proof fn other_values_are_no_texts(settings: Settings, key: Seq<char>)
    requires
        settings.contains_key(key) ==> !(settings[key] is Text),
    ensures
        parse::text_at(settings, key) == Seq::<char>::empty(),
{
}

/// The proxy of a protocol has the host and the port that stand under the protocol's keys. It is
/// enabled where its switch is not zero, its host not empty and its port not zero; the switch by
/// itself is shown in a snapshot.
pub proof fn proxy_is_what_its_entries_say(
    settings: Settings,
    t: ProxyType,
    switch: i32,
    host: Seq<char>,
    port: u16,
)
    requires
        settings.contains_key(key_name(t) + "Enable"@),
        settings[key_name(t) + "Enable"@] == PropertyView::Number(Some(switch)),
        settings.contains_key(key_name(t) + "Proxy"@),
        settings[key_name(t) + "Proxy"@] == PropertyView::Text(host),
        settings.contains_key(key_name(t) + "Port"@),
        settings[key_name(t) + "Port"@] == PropertyView::Number(Some(port as i32)),
    ensures
        parse::proxy_at(settings, t).host == host,
        parse::proxy_at(settings, t).port == port,
        parse::proxy_at(settings, t).enable == (switch != 0 && host.len() > 0 && port != 0),
        parse::proxy_at(settings, t).bypass == Seq::<char>::empty(),
        parse::endpoint_at(settings, t).host == host,
        parse::endpoint_at(settings, t).port == port,
        parse::endpoint_at(settings, t).enable == (switch != 0 && host.len() > 0 && port != 0),
        parse::endpoint_at(settings, t).switched_on == (switch != 0),
{
    keys_are_made_of_the_name(t);
}

/// A proxy that is enabled has a number other than zero as its switch, its host as a text that is
/// not empty, and its port as a number from 1 to 65535.
pub proof fn enabled_proxy_has_its_entries(settings: Settings, t: ProxyType)
    requires
        parse::proxy_at(settings, t).enable,
    ensures
        settings.contains_key(key_name(t) + "Enable"@),
        settings[key_name(t) + "Enable"@] matches PropertyView::Number(Some(n)) && n != 0,
        settings.contains_key(key_name(t) + "Proxy"@),
        settings[key_name(t) + "Proxy"@] == PropertyView::Text(parse::proxy_at(settings, t).host),
        settings.contains_key(key_name(t) + "Port"@),
        settings[key_name(t) + "Port"@] == PropertyView::Number(
            Some(parse::proxy_at(settings, t).port as i32),
        ),
        parse::proxy_at(settings, t).host.len() > 0,
        parse::proxy_at(settings, t).port > 0,
{
    keys_are_made_of_the_name(t);
}

/// A proxy, usable or not, is read from three keys and from nothing else.
pub proof fn proxy_depends_on_its_keys(settings: Settings, other: Settings, t: ProxyType)
    requires
        forall|key: Seq<char>|
            key == key_name(t) + "Enable"@ || key == key_name(t) + "Proxy"@ || key == key_name(t)
                + "Port"@ ==> (#[trigger] settings.contains_key(key)) == other.contains_key(key)
                && settings[key] == other[key],
    ensures
        parse::proxy_at(settings, t) == parse::proxy_at(other, t),
        parse::endpoint_at(settings, t) == parse::endpoint_at(other, t),
{
    keys_are_made_of_the_name(t);
    assert(settings.contains_key(t.enable_key()) == other.contains_key(t.enable_key()));
    assert(settings.contains_key(t.host_key()) == other.contains_key(t.host_key()));
    assert(settings.contains_key(t.port_key()) == other.contains_key(t.port_key()));
}

/// Host and port are read each on its own, whatever else is there or missing. A port out of range
/// counts as none.
pub proof fn host_and_port_are_read_on_their_own(
    settings: Settings,
    t: ProxyType,
    host: Seq<char>,
    port: i32,
)
    ensures
        settings.contains_key(key_name(t) + "Proxy"@) && settings[key_name(t) + "Proxy"@]
            == PropertyView::Text(host) ==> parse::proxy_at(settings, t).host == host,
        settings.contains_key(key_name(t) + "Port"@) && settings[key_name(t) + "Port"@]
            == PropertyView::Number(Some(port)) ==> parse::proxy_at(settings, t).port as int == if 0
            <= port <= 65535 {
            port as int
        } else {
            0
        },
{
    keys_are_made_of_the_name(t);
}

/// Without its switch, its host or its port a proxy is not enabled.
pub proof fn incomplete_proxy_is_not_enabled(settings: Settings, t: ProxyType)
    ensures
        !settings.contains_key(key_name(t) + "Proxy"@) ==> !parse::proxy_at(settings, t).enable
            && parse::proxy_at(settings, t).host.len() == 0,
        !settings.contains_key(key_name(t) + "Port"@) ==> !parse::proxy_at(settings, t).enable
            && parse::proxy_at(settings, t).port == 0,
        !settings.contains_key(key_name(t) + "Enable"@) ==> !parse::proxy_at(settings, t).enable
            && !parse::endpoint_at(settings, t).switched_on,
{
    keys_are_made_of_the_name(t);
}

/// Automatic configuration has the address and the switch that stand under its keys. It is enabled
/// where the switch is not zero and there is an address; a pair of quotation marks is none.
pub proof fn auto_is_what_its_entries_say(settings: Settings, switch: i32, url: Seq<char>)
    requires
        settings.contains_key("ProxyAutoConfigEnable"@),
        settings["ProxyAutoConfigEnable"@] == PropertyView::Number(Some(switch)),
        settings.contains_key("ProxyAutoConfigURLString"@),
        settings["ProxyAutoConfigURLString"@] == PropertyView::Text(url),
    ensures
        url != seq!['"', '"'] ==> parse::auto_at(settings).url == url,
        url == seq!['"', '"'] ==> parse::auto_at(settings).url.len() == 0,
        parse::auto_at(settings).enable == (switch != 0 && url.len() > 0 && url != seq!['"', '"']),
        parse::snapshot_of(settings).auto_switched_on == (switch != 0),
        parse::snapshot_of(settings).auto == parse::auto_at(settings),
{
    reveal_strlit("\"\"");
    assert("\"\""@ =~= seq!['"', '"']);
}

/// Automatic configuration that lacks its address or its switch is not enabled.
pub proof fn incomplete_auto_is_not_enabled(settings: Settings)
    ensures
        !settings.contains_key("ProxyAutoConfigURLString"@) ==> !parse::auto_at(settings).enable
            && parse::auto_at(settings).url.len() == 0,
        !settings.contains_key("ProxyAutoConfigEnable"@) ==> !parse::auto_at(settings).enable
            && !parse::snapshot_of(settings).auto_switched_on,
        parse::auto_at(settings).enable ==> settings.contains_key("ProxyAutoConfigURLString"@)
            && settings["ProxyAutoConfigURLString"@] == PropertyView::Text(
            parse::auto_at(settings).url,
        ),
        settings.contains_key("ProxyAutoConfigURLString"@)
            && settings["ProxyAutoConfigURLString"@] is Text
            && settings["ProxyAutoConfigURLString"@]->Text_0 != seq!['"', '"'] ==> parse::auto_at(
            settings,
        ).url == settings["ProxyAutoConfigURLString"@]->Text_0,
{
    reveal_strlit("\"\"");
    assert("\"\""@ =~= seq!['"', '"']);
}

/// What a list holds before, at and after an item is read one after the other.
proof fn items_are_taken_in_turn(left: Seq<Option<Seq<char>>>, right: Seq<Option<Seq<char>>>)
    ensures
        parse::present(left + right) == parse::present(left) + parse::present(right),
    decreases right.len(),
{
    if right.len() == 0 {
        assert(left + right =~= left);
        assert(parse::present(left) + parse::present(right) =~= parse::present(left));
    } else {
        let all = left + right;
        assert(all.drop_last() =~= left + right.drop_last());
        assert(all.last() == right.last());
        items_are_taken_in_turn(left, right.drop_last());
        assert(parse::present(all) =~= parse::present(left) + parse::present(right));
    }
}

/// The hosts of a list are the bypass list, in order and without change, and their text is the hosts
/// with commas between them.
pub proof fn listed_hosts_are_the_bypass_list(settings: Settings, hosts: Seq<Seq<char>>)
    requires
        settings.contains_key("ExceptionsList"@),
        settings["ExceptionsList"@] == PropertyView::List(
            hosts.map_values(|host: Seq<char>| Some(host)),
        ),
    ensures
        parse::bypass_list(settings) == hosts,
        parse::bypass_text(settings) == text::joined(hosts, seq![',']),
        parse::system_proxy(settings).bypass == text::joined(hosts, seq![',']),
        parse::snapshot_of(settings).bypass == text::joined(hosts, seq![',']),
{
    laws::all_present(hosts);
    reveal_strlit(",");
    assert(","@ =~= seq![',']);
}

/// An item that is no text makes no difference to the bypass list, wherever it stands.
pub proof fn items_that_are_no_texts_are_passed_over(
    settings: Settings,
    left: Seq<Option<Seq<char>>>,
    right: Seq<Option<Seq<char>>>,
)
    ensures
        parse::bypass_list(
            settings.insert("ExceptionsList"@, PropertyView::List(left.push(None) + right)),
        ) == parse::bypass_list(
            settings.insert("ExceptionsList"@, PropertyView::List(left + right)),
        ),
{
    items_are_taken_in_turn(left.push(None), right);
    items_are_taken_in_turn(left, right);
    assert(left.push(None).drop_last() =~= left);
}

/// Where there is no list, no host bypasses the proxy.
pub proof fn without_a_list_nothing_bypasses(settings: Settings)
    requires
        settings.contains_key("ExceptionsList"@) ==> !(settings["ExceptionsList"@] is List),
    ensures
        parse::bypass_list(settings).len() == 0,
        parse::bypass_text(settings).len() == 0,
{
}

/// The proxy in use is the proxy of one protocol: of SOCKS if that is enabled, or else of HTTPS if
/// that is, or else of HTTP if that is. If none is enabled, it is not enabled, and shows SOCKS.
pub proof fn proxy_in_use_is_the_first_enabled(settings: Settings)
    ensures
        ({
            let used = parse::system_proxy(settings);
            let socks = parse::proxy_at(settings, ProxyType::Socks);
            let https = parse::proxy_at(settings, ProxyType::Https);
            let http = parse::proxy_at(settings, ProxyType::Http);
            &&& used.bypass == parse::bypass_text(settings)
            &&& used.enable == (socks.enable || https.enable || http.enable)
            &&& socks.enable || !used.enable ==> used.host == socks.host && used.port == socks.port
            &&& !socks.enable && https.enable ==> used.host == https.host && used.port == https.port
            &&& !socks.enable && !https.enable && http.enable ==> used.host == http.host
                && used.port == http.port
        }),
{
}

/// A snapshot shows each protocol under its own name, with the host, the port and the usability that
/// are read for that protocol alone.
pub proof fn snapshot_shows_each_protocol(settings: Settings)
    ensures
        ({
            let all = parse::snapshot_of(settings);
            let socks = parse::proxy_at(settings, ProxyType::Socks);
            let https = parse::proxy_at(settings, ProxyType::Https);
            let http = parse::proxy_at(settings, ProxyType::Http);
            &&& all.socks.host == socks.host && all.socks.port == socks.port && all.socks.enable
                == socks.enable
            &&& all.https.host == https.host && all.https.port == https.port && all.https.enable
                == https.enable
            &&& all.http.host == http.host && all.http.port == http.port && all.http.enable
                == http.enable
            &&& all.socks.switched_on == parse::flag_at(settings, "SOCKSEnable"@)
            &&& all.https.switched_on == parse::flag_at(settings, "HTTPSEnable"@)
            &&& all.http.switched_on == parse::flag_at(settings, "HTTPEnable"@)
            &&& all.bypass == parse::bypass_text(settings)
        }),
{
}

/// A configuration assigns to every protocol the given host, port and switch, and to automatic
/// configuration the given address and switch. A switch is one if it is on and zero if it is off.
pub proof fn configuration_is_assigned(base: Settings, config: ProxyConfigView, t: ProxyType)
    ensures
        ({
            let settings = native::with_config(base, config);
            &&& settings.contains_key(key_name(t) + "Proxy"@)
            &&& settings[key_name(t) + "Proxy"@] == PropertyView::Text(config.system.host)
            &&& settings.contains_key(key_name(t) + "Port"@)
            &&& settings[key_name(t) + "Port"@] == PropertyView::Number(
                Some(config.system.port as i32),
            )
            &&& settings.contains_key(key_name(t) + "Enable"@)
            &&& config.system.enable ==> settings[key_name(t) + "Enable"@] == PropertyView::Number(
                Some(1i32),
            )
            &&& !config.system.enable ==> settings[key_name(t) + "Enable"@] == PropertyView::Number(
                Some(0i32),
            )
            &&& settings.contains_key("ProxyAutoConfigURLString"@)
            &&& settings["ProxyAutoConfigURLString"@] == PropertyView::Text(config.auto.url)
            &&& settings.contains_key("ProxyAutoConfigEnable"@)
            &&& config.auto.enable ==> settings["ProxyAutoConfigEnable"@] == PropertyView::Number(
                Some(1i32),
            )
            &&& !config.auto.enable ==> settings["ProxyAutoConfigEnable"@] == PropertyView::Number(
                Some(0i32),
            )
        }),
{
    laws::keys_are_apart();
    keys_are_made_of_the_name(t);
}

/// A text of hosts that are joined by commas is empty only if it has no host, or a single empty one.
proof fn joined_hosts_are_not_empty(hosts: Seq<Seq<char>>)
    requires
        hosts.len() > 0,
        hosts != seq![Seq::<char>::empty()],
    ensures
        text::joined(hosts, seq![',']).len() > 0,
{
    if hosts.len() == 1 {
        if hosts[0].len() == 0 {
            assert(hosts[0] =~= Seq::empty());
            assert(hosts =~= seq![Seq::<char>::empty()]);
        }
    }
}

/// Hosts that are free of commas, joined by commas, are taken apart into those hosts.
pub proof fn joined_hosts_are_taken_apart(hosts: Seq<Seq<char>>)
    requires
        hosts.len() > 0,
        hosts != seq![Seq::<char>::empty()],
        forall|i: int| 0 <= i < hosts.len() ==> !(#[trigger] hosts[i]).contains(','),
    ensures
        networksetup::domains(text::joined(hosts, seq![','])) == hosts,
{
    joined_hosts_are_not_empty(hosts);
    laws::split_undoes_join(hosts, ',');
}

/// No host that a text is taken apart into contains a comma, joining the hosts gives the text, and
/// the empty text has no hosts.
pub proof fn hosts_are_free_of_commas(bypass: Seq<char>)
    ensures
        forall|i: int|
            0 <= i < networksetup::domains(bypass).len() ==> !(
            #[trigger] networksetup::domains(bypass)[i]).contains(','),
        text::joined(networksetup::domains(bypass), seq![',']) == bypass,
        bypass.len() == 0 <==> networksetup::domains(bypass).len() == 0,
{
    laws::join_undoes_split(bypass, ',');
    if bypass.len() == 0 {
        assert(text::joined(networksetup::domains(bypass), seq![',']) =~= bypass);
    } else {
        assert forall|i: int| 0 <= i < networksetup::domains(bypass).len() implies !(
        #[trigger] networksetup::domains(bypass)[i]).contains(',') by {
            laws::strings::pieces_are_free_of_separator(bypass, ',', i);
        }
    }
}

/// A transaction assigns the hosts of its bypass list one by one: hosts that are free of commas,
/// joined by commas, are assigned as exactly these items.
pub proof fn hosts_are_assigned_one_by_one(
    base: Settings,
    config: ProxyConfigView,
    hosts: Seq<Seq<char>>,
)
    requires
        hosts.len() > 0,
        hosts != seq![Seq::<char>::empty()],
        forall|i: int| 0 <= i < hosts.len() ==> !(#[trigger] hosts[i]).contains(','),
        config.system.bypass == text::joined(hosts, seq![',']),
    ensures
        native::with_config(base, config).contains_key("ExceptionsList"@),
        native::with_config(base, config)["ExceptionsList"@] == PropertyView::List(
            hosts.map_values(|host: Seq<char>| Some(host)),
        ),
{
    laws::keys_are_apart();
    joined_hosts_are_taken_apart(hosts);
}

/// Every item of the bypass list that a transaction assigns is a text without a comma, and an empty
/// bypass list is assigned as an empty list.
pub proof fn assigned_hosts_are_free_of_commas(base: Settings, config: ProxyConfigView)
    ensures
        native::with_config(base, config).contains_key("ExceptionsList"@),
        native::with_config(base, config)["ExceptionsList"@] matches PropertyView::List(items) && {
            &&& forall|i: int|
                0 <= i < items.len() ==> #[trigger] items[i] is Some && !items[i]->0.contains(',')
            &&& items.len() == 0 <==> config.system.bypass.len() == 0
        },
{
    laws::keys_are_apart();
    hosts_are_free_of_commas(config.system.bypass);
    let hosts = networksetup::domains(config.system.bypass);
    let items = hosts.map_values(|host: Seq<char>| Some(host));
    assert(native::with_config(base, config)["ExceptionsList"@] == PropertyView::List(items));
    assert forall|i: int| 0 <= i < items.len() implies #[trigger] items[i] is Some
        && !items[i]->0.contains(',') by {
        assert(items[i] == Some(hosts[i]));
    }
}

/// In a list of assignments the last one of a key decides.
pub proof fn last_assignment_decides(entries: Seq<(String, PropertyValue)>, i: int)
    requires
        0 <= i < entries.len(),
        forall|j: int| i < j < entries.len() ==> (#[trigger] entries[j]).0@ != entries[i].0@,
    ensures
        property::assigned(entries).contains_key(entries[i].0@),
        property::assigned(entries)[entries[i].0@] == entries[i].1@,
    decreases entries.len(),
{
    if i < entries.len() - 1 {
        let fewer = entries.drop_last();
        assert(entries.last() == entries[entries.len() - 1]);
        assert forall|j: int| i < j < fewer.len() implies (#[trigger] fewer[j]).0@
            != fewer[i].0@ by {
            assert(fewer[j] == entries[j]);
        }
        last_assignment_decides(fewer, i);
    }
}

/// A key that no assignment is of has no value.
pub proof fn unassigned_keys_have_no_value(
    entries: Seq<(String, PropertyValue)>,
    key: Seq<char>,
)
    requires
        forall|j: int| 0 <= j < entries.len() ==> (#[trigger] entries[j]).0@ != key,
    ensures
        !property::assigned(entries).contains_key(key),
    decreases entries.len(),
{
    if entries.len() > 0 {
        let fewer = entries.drop_last();
        assert(entries.last() == entries[entries.len() - 1]);
        assert forall|j: int| 0 <= j < fewer.len() implies (#[trigger] fewer[j]).0@ != key by {
            assert(fewer[j] == entries[j]);
        }
        unassigned_keys_have_no_value(fewer, key);
    }
}

} // verus!
