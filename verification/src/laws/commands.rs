//! What the command lines for `networksetup` bring about, and what its answers mean.

use crate::error::{ErrorView, WriteProgress};
use crate::laws::{settings, strings};
use crate::networksetup::{CommandRun, CommandRunView, WriteSequence};
use crate::parse::Settings;
use crate::property::PropertyView;
use crate::proxy::{AutoproxyView, ProxyType, SysproxyView};
use crate::system::{ActionView, CommandOutputView, ReplyView, StepView, Task};
use crate::write::TargetView;
use crate::{dialogue, laws, native, networksetup, parse, text};
use vstd::prelude::*;

verus! {

/// The word that a protocol goes by in the options of `networksetup`.
pub open spec fn option_word(t: ProxyType) -> Seq<char> {
    match t {
        ProxyType::Http => "web"@,
        ProxyType::Https => "secureweb"@,
        ProxyType::Socks => "socksfirewall"@,
    }
}

/// The options of a protocol are made of its word.
pub proof fn options_are_made_of_the_word(t: ProxyType)
    ensures
        t.set_option() == "-set"@ + option_word(t) + "proxy"@,
        t.state_option() == "-set"@ + option_word(t) + "proxystate"@,
{
    reveal_strlit("-set");
    reveal_strlit("web");
    reveal_strlit("secureweb");
    reveal_strlit("socksfirewall");
    reveal_strlit("proxy");
    reveal_strlit("proxystate");
    reveal_strlit("-setwebproxy");
    reveal_strlit("-setsecurewebproxy");
    reveal_strlit("-setsocksfirewallproxy");
    reveal_strlit("-setwebproxystate");
    reveal_strlit("-setsecurewebproxystate");
    reveal_strlit("-setsocksfirewallproxystate");
    assert(t.set_option() =~= "-set"@ + option_word(t) + "proxy"@);
    assert(t.state_option() =~= "-set"@ + option_word(t) + "proxystate"@);
}

/// What tells the options apart: length and fifth character.
spec fn option_mark(option: Seq<char>) -> (nat, char) {
    (option.len(), option[4])
}

/// The options have marks of their own.
proof fn options_are_apart()
    ensures
        option_mark("-setwebproxy"@) == (12nat, 'w'),
        option_mark("-setsecurewebproxy"@) == (18nat, 's'),
        option_mark("-setsocksfirewallproxy"@) == (22nat, 's'),
        option_mark("-setwebproxystate"@) == (17nat, 'w'),
        option_mark("-setsecurewebproxystate"@) == (23nat, 's'),
        option_mark("-setsocksfirewallproxystate"@) == (27nat, 's'),
        option_mark("-setproxybypassdomains"@) == (22nat, 'p'),
        option_mark("-setautoproxyurl"@) == (16nat, 'a'),
        option_mark("-setautoproxystate"@) == (18nat, 'a'),
{
    reveal_strlit("-setwebproxy");
    reveal_strlit("-setsecurewebproxy");
    reveal_strlit("-setsocksfirewallproxy");
    reveal_strlit("-setwebproxystate");
    reveal_strlit("-setsecurewebproxystate");
    reveal_strlit("-setsocksfirewallproxystate");
    reveal_strlit("-setproxybypassdomains");
    reveal_strlit("-setautoproxyurl");
    reveal_strlit("-setautoproxystate");
}

/// One protocol takes two commands: the first carries the service, the host and the port, and the
/// second the service and `on` or `off`.
pub proof fn protocol_takes_two_commands(proxy: SysproxyView, t: ProxyType, service: Seq<char>)
    ensures
        ({
            let commands = networksetup::proxy_commands(proxy, t, service);
            &&& commands.len() == 2
            &&& commands[0].len() == 4
            &&& commands[0][0] == "-set"@ + option_word(t) + "proxy"@
            &&& commands[0][1] == service
            &&& commands[0][2] == proxy.host
            &&& strings::numeral(commands[0][3]) == proxy.port
            &&& commands[1].len() == 3
            &&& commands[1][0] == "-set"@ + option_word(t) + "proxystate"@
            &&& commands[1][1] == service
            &&& proxy.enable ==> commands[1][2] == "on"@
            &&& !proxy.enable ==> commands[1][2] == "off"@
        }),
{
    options_are_made_of_the_word(t);
    strings::decimal_stands_for_the_number(proxy.port as nat);
}

/// Setting the system proxy switches every protocol exactly once, on if the proxy is enabled and off
/// if it is not, right after the one command that gives the protocol its host and port.
pub proof fn every_protocol_is_set_and_switched_once(
    proxy: SysproxyView,
    service: Seq<char>,
    t: ProxyType,
) -> (at: int)
    ensures
        ({
            let commands = networksetup::system_commands(proxy, service);
            &&& 0 <= at < commands.len() - 1
            &&& commands[at].len() == 4
            &&& commands[at][0] == "-set"@ + option_word(t) + "proxy"@
            &&& commands[at][1] == service
            &&& commands[at][2] == proxy.host
            &&& strings::numeral(commands[at][3]) == proxy.port
            &&& commands[at + 1].len() == 3
            &&& commands[at + 1][0] == "-set"@ + option_word(t) + "proxystate"@
            &&& commands[at + 1][1] == service
            &&& proxy.enable ==> commands[at + 1][2] == "on"@
            &&& !proxy.enable ==> commands[at + 1][2] == "off"@
            &&& forall|j: int|
                0 <= j < commands.len() && (#[trigger] commands[j])[0] == "-set"@ + option_word(t)
                    + "proxy"@ ==> j == at
            &&& forall|j: int|
                0 <= j < commands.len() && (#[trigger] commands[j])[0] == "-set"@ + option_word(t)
                    + "proxystate"@ ==> j == at + 1
        }),
{
    let commands = networksetup::system_commands(proxy, service);
    let at: int = match t {
        ProxyType::Socks => 0,
        ProxyType::Https => 2,
        ProxyType::Http => 4,
    };
    options_are_apart();
    options_are_made_of_the_word(t);
    protocol_takes_two_commands(proxy, t, service);
    assert(commands[at] == networksetup::proxy_commands(proxy, t, service)[0]);
    assert(commands[at + 1] == networksetup::proxy_commands(proxy, t, service)[1]);
    assert(commands[0][0] == "-setsocksfirewallproxy"@);
    assert(commands[1][0] == "-setsocksfirewallproxystate"@);
    assert(commands[2][0] == "-setsecurewebproxy"@);
    assert(commands[3][0] == "-setsecurewebproxystate"@);
    assert(commands[4][0] == "-setwebproxy"@);
    assert(commands[5][0] == "-setwebproxystate"@);
    assert(commands[6][0] == "-setproxybypassdomains"@);
    at
}

/// Setting the system proxy takes seven commands: SOCKS comes before HTTPS, HTTPS before HTTP, and
/// the bypass list last.
pub proof fn protocols_come_in_order(proxy: SysproxyView, service: Seq<char>)
    ensures
        ({
            let commands = networksetup::system_commands(proxy, service);
            &&& commands.len() == 7
            &&& commands[0][0] == "-setsocksfirewallproxy"@
            &&& commands[2][0] == "-setsecurewebproxy"@
            &&& commands[4][0] == "-setwebproxy"@
            &&& commands[6][0] == "-setproxybypassdomains"@
            &&& commands[6] == networksetup::bypass_command(proxy, service)
        }),
{
}

/// The command for the bypass list carries the service and after it the hosts, each as an argument
/// of its own: none of them contains a comma, and joined by commas they are the bypass list.
pub proof fn bypass_hosts_are_arguments(proxy: SysproxyView, service: Seq<char>)
    ensures
        ({
            let command = networksetup::bypass_command(proxy, service);
            &&& command.len() >= 2
            &&& command[0] == "-setproxybypassdomains"@
            &&& command[1] == service
            &&& forall|i: int| 2 <= i < command.len() ==> !(#[trigger] command[i]).contains(',')
            &&& text::joined(command.skip(2), seq![',']) == proxy.bypass
            &&& proxy.bypass.len() == 0 <==> command.len() == 2
        }),
{
    let command = networksetup::bypass_command(proxy, service);
    let hosts = networksetup::domains(proxy.bypass);
    settings::hosts_are_free_of_commas(proxy.bypass);
    assert(command.skip(2) =~= hosts);
    assert forall|i: int| 2 <= i < command.len() implies !(#[trigger] command[i]).contains(',') by {
        assert(command[i] == hosts[i - 2]);
    }
}

/// Hosts that are free of commas, joined by commas, become exactly these arguments.
pub proof fn joined_hosts_become_arguments(
    proxy: SysproxyView,
    service: Seq<char>,
    hosts: Seq<Seq<char>>,
)
    requires
        hosts.len() > 0,
        hosts != seq![Seq::<char>::empty()],
        forall|i: int| 0 <= i < hosts.len() ==> !(#[trigger] hosts[i]).contains(','),
        proxy.bypass == text::joined(hosts, seq![',']),
    ensures
        networksetup::bypass_command(proxy, service) == seq!["-setproxybypassdomains"@, service]
            + hosts,
{
    settings::joined_hosts_are_taken_apart(hosts);
}

/// Setting automatic configuration takes two commands. The first carries the address, or a pair of
/// quotation marks for an empty one. The last one switches it, on if it is enabled and off if it is
/// not, whatever its address.
pub proof fn auto_is_addressed_and_switched(auto: AutoproxyView, service: Seq<char>)
    ensures
        ({
            let commands = networksetup::auto_commands(auto, service);
            &&& commands.len() == 2
            &&& commands[0].len() == 3
            &&& commands[0][0] == "-setautoproxyurl"@
            &&& commands[0][1] == service
            &&& auto.url.len() > 0 ==> commands[0][2] == auto.url
            &&& auto.url.len() == 0 ==> commands[0][2] == seq!['"', '"']
            &&& commands.last().len() == 3
            &&& commands.last()[0] == "-setautoproxystate"@
            &&& commands.last()[1] == service
            &&& auto.enable ==> commands.last()[2] == "on"@
            &&& !auto.enable ==> commands.last()[2] == "off"@
        }),
{
    reveal_strlit("\"\"");
    assert("\"\""@ =~= seq!['"', '"']);
}

/// What is written to a service is the commands of the system proxy for the one target, and those of
/// automatic configuration for the other.
pub proof fn targets_have_their_commands(
    proxy: SysproxyView,
    auto: AutoproxyView,
    service: Seq<char>,
)
    ensures
        TargetView::System(proxy).commands(service) == networksetup::system_commands(proxy, service),
        TargetView::Auto(auto).commands(service) == networksetup::auto_commands(auto, service),
{
}

/// The number that a switch is kept as: one for `on`, and zero for anything else.
pub open spec fn switched(word: Seq<char>) -> PropertyView {
    PropertyView::Number(
        Some(
            if word == "on"@ {
                1i32
            } else {
                0i32
            },
        ),
    )
}

/// The settings of a service after `networksetup` obeyed a command for one protocol. Setting host
/// and port also turns the proxy on.
pub open spec fn obeyed_for(settings: Settings, t: ProxyType, args: Seq<Seq<char>>) -> Settings {
    if args[0] == "-set"@ + option_word(t) + "proxy"@ {
        settings.insert(settings::key_name(t) + "Proxy"@, PropertyView::Text(args[2])).insert(
            settings::key_name(t) + "Port"@,
            PropertyView::Number(Some(strings::numeral(args[3]) as i32)),
        ).insert(settings::key_name(t) + "Enable"@, PropertyView::Number(Some(1i32)))
    } else if args[0] == "-set"@ + option_word(t) + "proxystate"@ {
        settings.insert(settings::key_name(t) + "Enable"@, switched(args[2]))
    } else {
        settings
    }
}

/// The settings of `service` after `networksetup` obeyed a command. A command for another service
/// changes nothing. Setting the address of automatic configuration also turns it on.
pub open spec fn obeyed(
    settings: Settings,
    service: Seq<char>,
    args: Seq<Seq<char>>,
) -> Settings {
    if args[1] != service {
        settings
    } else if args[0] == "-setproxybypassdomains"@ {
        settings.insert(
            "ExceptionsList"@,
            PropertyView::List(args.skip(2).map_values(|host: Seq<char>| Some(host))),
        )
    } else if args[0] == "-setautoproxyurl"@ {
        settings.insert("ProxyAutoConfigURLString"@, PropertyView::Text(args[2])).insert(
            "ProxyAutoConfigEnable"@,
            PropertyView::Number(Some(1i32)),
        )
    } else if args[0] == "-setautoproxystate"@ {
        settings.insert("ProxyAutoConfigEnable"@, switched(args[2]))
    } else {
        obeyed_for(
            obeyed_for(obeyed_for(settings, ProxyType::Http, args), ProxyType::Https, args),
            ProxyType::Socks,
            args,
        )
    }
}

/// The settings of `service` after `networksetup` obeyed a number of commands, one after the other.
pub open spec fn all_obeyed(
    settings: Settings,
    service: Seq<char>,
    commands: Seq<Seq<Seq<char>>>,
) -> Settings
    decreases commands.len(),
{
    if commands.len() == 0 {
        settings
    } else {
        all_obeyed(
            obeyed(settings, service, commands.first()),
            service,
            commands.drop_first(),
        )
    }
}

/// The two commands of a protocol leave its host, its port and its switch assigned.
proof fn protocol_commands_assign(
    settings: Settings,
    proxy: SysproxyView,
    t: ProxyType,
    service: Seq<char>,
)
    ensures
        ({
            let commands = networksetup::proxy_commands(proxy, t, service);
            obeyed(obeyed(settings, service, commands[0]), service, commands[1])
                == native::with_proxy(settings, t, proxy.host, proxy.port, proxy.enable)
        }),
{
    let commands = networksetup::proxy_commands(proxy, t, service);
    options_are_apart();
    options_are_made_of_the_word(ProxyType::Http);
    options_are_made_of_the_word(ProxyType::Https);
    options_are_made_of_the_word(ProxyType::Socks);
    protocol_takes_two_commands(proxy, t, service);
    settings::keys_are_made_of_the_name(t);
    settings::keys_differ(t, t);
    reveal_strlit("on");
    reveal_strlit("off");
    assert("on"@.len() == 2 && "off"@.len() == 3);
    let set = obeyed(settings, service, commands[0]);
    assert(set == obeyed_for(settings, t, commands[0]));
    let state = obeyed(set, service, commands[1]);
    assert(state == obeyed_for(set, t, commands[1]));
    assert(state =~= native::with_proxy(settings, t, proxy.host, proxy.port, proxy.enable));
}

/// Setting one protocol with a `networksetup` that obeys gives that protocol the host, the port and
/// the switch, and changes no other setting.
pub proof fn one_protocol_is_set(
    settings: Settings,
    proxy: SysproxyView,
    t: ProxyType,
    service: Seq<char>,
    key: Seq<char>,
)
    ensures
        ({
            let after = all_obeyed(
                settings,
                service,
                networksetup::proxy_commands(proxy, t, service),
            );
            &&& parse::proxy_at(after, t).host == proxy.host
            &&& parse::proxy_at(after, t).port == proxy.port
            &&& parse::endpoint_at(after, t).switched_on == proxy.enable
            &&& parse::proxy_at(after, t).enable == (proxy.enable && proxy.host.len() > 0
                && proxy.port != 0)
            &&& key != settings::key_name(t) + "Proxy"@ && key != settings::key_name(t) + "Port"@
                && key != settings::key_name(t) + "Enable"@ ==> after.contains_key(key) == settings.contains_key(key) && (
            settings.contains_key(key) ==> after[key] == settings[key])
        }),
{
    reveal_with_fuel(all_obeyed, 3);
    protocol_commands_assign(settings, proxy, t, service);
    settings::keys_are_made_of_the_name(t);
    settings::keys_differ(t, t);
    let commands = networksetup::proxy_commands(proxy, t, service);
    assert(commands.drop_first().first() == commands[1]);
    let after = all_obeyed(settings, service, commands);
    assert(after == native::with_proxy(settings, t, proxy.host, proxy.port, proxy.enable));
}

/// Setting the bypass list with a `networksetup` that obeys makes it the list that is read, and
/// changes no other setting.
pub proof fn bypass_list_is_set(
    settings: Settings,
    proxy: SysproxyView,
    service: Seq<char>,
    key: Seq<char>,
)
    ensures
        ({
            let after = all_obeyed(
                settings,
                service,
                seq![networksetup::bypass_command(proxy, service)],
            );
            &&& parse::bypass_text(after) == proxy.bypass
            &&& key != "ExceptionsList"@ ==> after.contains_key(key) == settings.contains_key(key)
                && (settings.contains_key(key) ==> after[key] == settings[key])
        }),
{
    reveal_with_fuel(all_obeyed, 2);
    bypass_command_assigns(settings, proxy, service);
}

/// The command for the bypass list assigns the hosts.
proof fn bypass_command_assigns(settings: Settings, proxy: SysproxyView, service: Seq<char>)
    ensures
        ({
            let after = obeyed(settings, service, networksetup::bypass_command(proxy, service));
            &&& after == settings.insert("ExceptionsList"@, native::exceptions(proxy.bypass))
            &&& parse::bypass_text(after) == proxy.bypass
        }),
{
    let command = networksetup::bypass_command(proxy, service);
    let hosts = networksetup::domains(proxy.bypass);
    bypass_hosts_are_arguments(proxy, service);
    assert(command.skip(2) =~= hosts);
    let after = obeyed(settings, service, command);
    settings::listed_hosts_are_the_bypass_list(after, hosts);
}

/// Setting the system proxy with a `networksetup` that obeys makes it the proxy in use and the proxy
/// of every protocol, with its bypass list. Every protocol is switched on if and only if the proxy
/// is enabled. Automatic configuration and all other settings stay as they were.
pub proof fn system_proxy_is_set(
    settings: Settings,
    proxy: SysproxyView,
    service: Seq<char>,
    t: ProxyType,
    key: Seq<char>,
)
    ensures
        ({
            let after = all_obeyed(
                settings,
                service,
                networksetup::system_commands(proxy, service),
            );
            let usable = proxy.enable && proxy.host.len() > 0 && proxy.port != 0;
            &&& parse::system_proxy(after) == (SysproxyView { enable: usable, ..proxy })
            &&& parse::proxy_at(after, t).host == proxy.host
            &&& parse::proxy_at(after, t).port == proxy.port
            &&& parse::proxy_at(after, t).enable == usable
            &&& parse::endpoint_at(after, t).switched_on == proxy.enable
            &&& parse::bypass_text(after) == proxy.bypass
            &&& parse::auto_at(after) == parse::auto_at(settings)
            &&& !laws::is_proxy_key(key) ==> after.contains_key(key) == settings.contains_key(key)
                && (settings.contains_key(key) ==> after[key] == settings[key])
        }),
{
    reveal_with_fuel(all_obeyed, 8);
    let commands = networksetup::system_commands(proxy, service);
    let after = all_obeyed(settings, service, commands);
    let socks = native::with_proxy(
        settings,
        ProxyType::Socks,
        proxy.host,
        proxy.port,
        proxy.enable,
    );
    let https = native::with_proxy(socks, ProxyType::Https, proxy.host, proxy.port, proxy.enable);
    let http = native::with_proxy(https, ProxyType::Http, proxy.host, proxy.port, proxy.enable);
    protocol_commands_assign(settings, proxy, ProxyType::Socks, service);
    protocol_commands_assign(socks, proxy, ProxyType::Https, service);
    protocol_commands_assign(https, proxy, ProxyType::Http, service);
    bypass_command_assigns(http, proxy, service);
    let first = commands.drop_first();
    let second = first.drop_first();
    let third = second.drop_first();
    let fourth = third.drop_first();
    let fifth = fourth.drop_first();
    let sixth = fifth.drop_first();
    assert(first.first() == commands[1]);
    assert(second.first() == commands[2]);
    assert(third.first() == commands[3]);
    assert(fourth.first() == commands[4]);
    assert(fifth.first() == commands[5]);
    assert(sixth.first() == commands[6]);
    assert(after == http.insert("ExceptionsList"@, native::exceptions(proxy.bypass)));
    laws::keys_are_apart();
    settings::proxy_in_use_is_the_first_enabled(after);
}

/// Setting automatic configuration with a `networksetup` that obeys switches it on if and only if it
/// is enabled, gives it its address, and leaves all other settings as they were. A pair of quotation
/// marks is read back as no address.
pub proof fn auto_proxy_is_set(
    settings: Settings,
    auto: AutoproxyView,
    service: Seq<char>,
    key: Seq<char>,
)
    ensures
        ({
            let after = all_obeyed(
                settings,
                service,
                networksetup::auto_commands(auto, service),
            );
            &&& parse::snapshot_of(after).auto_switched_on == auto.enable
            &&& auto.url != seq!['"', '"'] ==> parse::auto_at(after).url == auto.url
            &&& auto.url == seq!['"', '"'] ==> parse::auto_at(after).url.len() == 0
            &&& parse::auto_at(after).enable == (auto.enable && auto.url.len() > 0 && auto.url
                != seq!['"', '"'])
            &&& key != "ProxyAutoConfigURLString"@ && key != "ProxyAutoConfigEnable"@
                ==> after.contains_key(key) == settings.contains_key(key) && (
            settings.contains_key(key) ==> after[key] == settings[key])
        }),
{
    reveal_with_fuel(all_obeyed, 3);
    laws::keys_are_apart();
    options_are_apart();
    auto_is_addressed_and_switched(auto, service);
    reveal_strlit("on");
    reveal_strlit("off");
    assert("on"@.len() == 2 && "off"@.len() == 3);
    let commands = networksetup::auto_commands(auto, service);
    let after = all_obeyed(settings, service, commands);
    assert(commands.drop_first().first() == commands[1]);
    let url = commands[0][2];
    let switch = if auto.enable {
        1i32
    } else {
        0i32
    };
    assert(after["ProxyAutoConfigURLString"@] == PropertyView::Text(url));
    assert(after["ProxyAutoConfigEnable"@] == PropertyView::Number(Some(switch)));
    settings::auto_is_what_its_entries_say(after, switch, url);
    if auto.url.len() == 0 {
        assert(auto.url =~= Seq::empty());
        assert(parse::auto_at(after).url =~= Seq::empty());
    }
}

/// The words for missing rights begin and end with a letter and stand on one line.
proof fn words_for_missing_rights()
    ensures
        "requires admin privileges"@.len() == 25,
        !text::white_space("requires admin privileges"@[0]),
        !text::white_space("requires admin privileges"@[24]),
        forall|i: int| 0 <= i < 25 ==> #[trigger] "requires admin privileges"@[i] != '\n',
{
    reveal_strlit("requires admin privileges");
}

/// Trimming neither adds nor removes the words for missing rights.
proof fn trimming_keeps_the_words(s: Seq<char>)
    ensures
        text::occurs_in("requires admin privileges"@, text::trimmed(s)) == text::occurs_in(
            "requires admin privileges"@,
            s,
        ),
{
    let words = "requires admin privileges"@;
    let inner = text::trimmed(s);
    let (left, right) = strings::trimming_takes_the_ends(s);
    words_for_missing_rights();
    if text::occurs_in(words, inner) {
        let (before, after) = strings::what_occurs_is_surrounded(words, inner);
        strings::what_is_surrounded_occurs(left + before, words, after + right);
        assert(s =~= (left + before) + words + (after + right));
    }
    if text::occurs_in(words, s) {
        let i = choose|i: int|
            0 <= i <= s.len() - words.len() && #[trigger] s.subrange(i, i + words.len()) == words;
        assert(s.subrange(i, i + words.len())[0] == s[i]);
        assert(s.subrange(i, i + words.len())[24] == s[i + 24]);
        if i < left.len() {
            assert(s[i] == left[i]);
        }
        if i + 24 >= left.len() + inner.len() {
            assert(s[i + 24] == right[i + 24 - left.len() - inner.len()]);
        }
        let j = i - left.len();
        assert(inner.subrange(j, j + words.len()) =~= s.subrange(i, i + words.len()));
    }
}

/// The words for missing rights do not run over the end of a line.
proof fn words_stand_on_one_line(first: Seq<char>, second: Seq<char>)
    ensures
        text::occurs_in("requires admin privileges"@, first + "\n"@ + second) == (text::occurs_in(
            "requires admin privileges"@,
            first,
        ) || text::occurs_in("requires admin privileges"@, second)),
{
    let words = "requires admin privileges"@;
    let both = first + "\n"@ + second;
    words_for_missing_rights();
    reveal_strlit("\n");
    if text::occurs_in(words, first) {
        let (before, after) = strings::what_occurs_is_surrounded(words, first);
        strings::what_is_surrounded_occurs(before, words, after + "\n"@ + second);
        assert(both =~= before + words + (after + "\n"@ + second));
    }
    if text::occurs_in(words, second) {
        let (before, after) = strings::what_occurs_is_surrounded(words, second);
        strings::what_is_surrounded_occurs(first + "\n"@ + before, words, after);
        assert(both =~= (first + "\n"@ + before) + words + after);
    }
    if text::occurs_in(words, both) {
        let i = choose|i: int|
            0 <= i <= both.len() - words.len() && #[trigger] both.subrange(i, i + words.len())
                == words;
        let end = first.len() as int;
        if i + 25 <= end {
            assert(first.subrange(i, i + words.len()) =~= both.subrange(i, i + words.len()));
        } else if i > end {
            let j = i - end - 1;
            assert(second.subrange(j, j + words.len()) =~= both.subrange(i, i + words.len()));
        } else {
            assert(both[end] == '\n');
            assert(both.subrange(i, i + words.len())[end - i] == both[end]);
        }
    }
}

/// A failure is one of missing rights if and only if its exit code is 14 or the words for it stand
/// in the output or in the error output.
pub proof fn missing_rights_are_told_by_code_or_words(
    args: Seq<char>,
    code: Option<i32>,
    status: Seq<char>,
    stdout: Seq<char>,
    stderr: Seq<char>,
)
    ensures
        networksetup::failure(args, code, status, stdout, stderr)
            == ErrorView::RequiresAdminPrivileges <==> code == Some(14i32) || text::occurs_in(
            "requires admin privileges"@,
            stdout,
        ) || text::occurs_in("requires admin privileges"@, stderr),
{
    let out = text::trimmed(stdout);
    let err = text::trimmed(stderr);
    words_for_missing_rights();
    trimming_keeps_the_words(stdout);
    trimming_keeps_the_words(stderr);
    words_stand_on_one_line(out, err);
}

/// Any other failure is told with the arguments, the exit status and, without the white space at
/// their ends, the output and the error output, each on lines of its own where there are both.
pub proof fn other_failures_are_told_in_full(
    args: Seq<char>,
    code: Option<i32>,
    status: Seq<char>,
    stdout: Seq<char>,
    stderr: Seq<char>,
)
    requires
        code != Some(14i32),
        !text::occurs_in("requires admin privileges"@, stdout),
        !text::occurs_in("requires admin privileges"@, stderr),
    ensures
        networksetup::failure(args, code, status, stdout, stderr) matches ErrorView::NetworkSetup(
            message,
        ) && {
            let head = "args="@ + args + ", status="@ + status + ", error="@;
            let out = text::trimmed(stdout);
            let err = text::trimmed(stderr);
            &&& out.len() > 0 && err.len() > 0 ==> message == head + out + seq!['\n'] + err
            &&& out.len() == 0 ==> message == head + err
            &&& err.len() == 0 ==> message == head + out
        },
{
    missing_rights_are_told_by_code_or_words(args, code, status, stdout, stderr);
    let head = "args="@ + args + ", status="@ + status + ", error="@;
    let out = text::trimmed(stdout);
    let err = text::trimmed(stderr);
    reveal_strlit("\n");
    assert("\n"@ =~= seq!['\n']);
    assert(head + (out + seq!['\n'] + err) =~= head + out + seq!['\n'] + err);
    if out.len() == 0 && err.len() == 0 {
        assert(out =~= err);
    }
}

/// A command succeeded if it was run and reported success. If it could not be run, that is the
/// failure; if it failed, its decoded output tells the failure.
pub proof fn attempts_are_judged(
    args: Seq<Seq<char>>,
    output: CommandOutputView,
    refusal: std::io::Error,
)
    ensures
        networksetup::attempt(args, Ok(output)) is Ok <==> output.success,
        !output.success ==> networksetup::attempt(args, Ok(output)) == Err::<(), ErrorView>(
            networksetup::failure(
                text::quoted_list(args),
                output.code,
                output.status,
                text::lossy(output.stdout),
                text::lossy(output.stderr),
            ),
        ),
        networksetup::attempt(args, Err(refusal)) == Err::<(), ErrorView>(ErrorView::Io(refusal)),
{
}

/// An accepted write counts one more, of the same total. A failed write tells the count before it,
/// the total, and its cause.
pub proof fn progress_is_counted(completed: u8, total: u8, source: ErrorView)
    requires
        completed < 255,
    ensures
        (WriteSequence { completed, total }).advanced().completed == completed + 1,
        (WriteSequence { completed, total }).advanced().total == total,
        (WriteSequence { completed, total }).failed(source) == (ErrorView::ProxyWrite {
            progress: WriteProgress { completed, total },
            source: Box::new(source),
        }),
{
}

/// A run of commands that fails at one of them reports as its progress the number of commands before
/// that one, out of all, and as its cause why that one failed.
pub proof fn failed_run_reports_its_progress(
    commands: Seq<Seq<Seq<char>>>,
    replies: Seq<ReplyView>,
    failing: nat,
    cause: ErrorView,
)
    requires
        commands.len() <= 255,
        failing < commands.len(),
        failing < replies.len(),
        dialogue::accepted_up_to(commands, replies, failing as int),
        networksetup::attempt(commands[failing as int], replies[failing as int]->Ran_0) == Err::<
            (),
            ErrorView,
        >(cause),
    ensures
        dialogue::fed::<CommandRun>(StepView::Ask(CommandRunView::start(commands)), replies) matches
            StepView::Done(Err(ErrorView::ProxyWrite { progress, source }))
            && progress.completed == failing && progress.total == commands.len() && *source
            == cause,
{
    dialogue::run_stops_at_first_failure(commands, replies, failing);
}

/// A run of commands begins with its first command.
pub proof fn run_begins_with_the_first_command(commands: Seq<Seq<Seq<char>>>)
    requires
        commands.len() > 0,
    ensures
        CommandRun::wanted(CommandRunView::start(commands)) == ActionView::Run(commands[0]),
{
}

/// Texts that are put together one after the other can be put together in groups.
proof fn texts_can_be_grouped(
    a: Seq<char>,
    b: Seq<char>,
    c: Seq<char>,
    d: Seq<char>,
    e: Seq<char>,
    f: Seq<char>,
)
    ensures
        (a + b) + c + d + e + f == a + (b + c + d + e + f) + Seq::<char>::empty(),
{
    assert((a + b) + c + d + e + f =~= a + (b + c + d + e + f) + Seq::<char>::empty());
}

/// The progress in words names the writes that were completed, and after them the total.
pub proof fn summary_tells_the_counts(progress: WriteProgress) -> (counts: (Seq<char>, Seq<char>))
    ensures
        strings::numeral(counts.0) == progress.completed,
        strings::numeral(counts.1) == progress.total,
        text::occurs_in(
            seq![' '] + counts.0 + " of "@ + counts.1 + " writes completed"@,
            progress.summary(),
        ),
{
    let completed = text::decimal(progress.completed as nat);
    let total = text::decimal(progress.total as nat);
    strings::decimal_stands_for_the_number(progress.completed as nat);
    strings::decimal_stands_for_the_number(progress.total as nat);
    let told = seq![' '] + completed + " of "@ + total + " writes completed"@;
    let head = "proxy write failed: "@.drop_last();
    assert("proxy write failed: "@ == head + seq![' ']) by {
        reveal_strlit("proxy write failed: ");
        assert("proxy write failed: "@ =~= head + seq![' ']);
    }
    strings::what_is_surrounded_occurs(head, told, Seq::empty());
    texts_can_be_grouped(head, seq![' '], completed, " of "@, total, " writes completed"@);
    (completed, total)
}

/// The description of a failure holds what the failure carries, and that of missing rights says so.
pub proof fn descriptions_hold_the_details(details: Seq<char>)
    ensures
        text::occurs_in(details, ErrorView::ParseStr(details).message()),
        text::occurs_in(details, ErrorView::NetworkSetup(details).message()),
        text::occurs_in(details, ErrorView::SystemConfiguration(details).message()),
        text::occurs_in("admin privileges"@, ErrorView::RequiresAdminPrivileges.message()),
{
    let none = Seq::<char>::empty();
    strings::what_is_surrounded_occurs("failed to parse: "@, details, none);
    assert("failed to parse: "@ + details + none =~= "failed to parse: "@ + details);
    strings::what_is_surrounded_occurs("networksetup failed: "@, details, none);
    assert("networksetup failed: "@ + details + none =~= "networksetup failed: "@ + details);
    strings::what_is_surrounded_occurs("SystemConfiguration refused to "@, details, none);
    assert("SystemConfiguration refused to "@ + details + none
        =~= "SystemConfiguration refused to "@ + details);
    reveal_strlit("networksetup requires admin privileges");
    reveal_strlit("admin privileges");
    let message = "networksetup requires admin privileges"@;
    let start: int = 22;
    assert(message.subrange(start, start + "admin privileges"@.len()) =~= "admin privileges"@);
}

} // verus!
