//! What holds of lists, of settings dictionaries and of command lines as a whole.

pub mod commands;
pub mod operations;
pub mod settings;
pub mod strings;
pub mod views;

use crate::error::{ErrorView, WriteProgress};
use crate::parse::Settings;
use crate::property::PropertyView;
use crate::proxy::{AutoproxyView, ProxyConfigView, ProxyType, SysproxyView};
use crate::system::CommandOutputView;
use crate::{native, networksetup, parse, text};
use vstd::prelude::*;

verus! {

/// Splitting never gives an empty list, and joining what it gave restores the text.
pub proof fn join_undoes_split(s: Seq<char>, sep: char)
    ensures
        text::pieces(s, sep).len() > 0,
        text::joined(text::pieces(s, sep), seq![sep]) == s,
    decreases s.len(),
{
    if s.len() > 0 {
        let before = s.drop_last();
        let parts = text::pieces(before, sep);
        join_undoes_split(before, sep);
        assert(s == before.push(s.last()));
        if s.last() == sep {
            let next = parts.push(Seq::<char>::empty());
            assert(next.drop_last() == parts);
            assert(text::joined(next, seq![sep]) =~= before + seq![sep]);
        } else {
            let next = parts.drop_last().push(parts.last().push(s.last()));
            assert(next.drop_last() == parts.drop_last());
            if parts.len() == 1 {
                assert(text::joined(next, seq![sep]) =~= s);
            } else {
                assert(text::joined(next, seq![sep]) =~= text::joined(parts, seq![sep]).push(
                    s.last(),
                ));
            }
        }
    }
}

/// Splitting a piece without the separator at its end only lengthens the last piece.
proof fn pieces_of_extended(s: Seq<char>, tail: Seq<char>, sep: char)
    requires
        !tail.contains(sep),
    ensures
        text::pieces(s + tail, sep) == text::pieces(s, sep).drop_last().push(
            text::pieces(s, sep).last() + tail,
        ),
    decreases tail.len(),
{
    join_undoes_split(s, sep);
    let parts = text::pieces(s, sep);
    if tail.len() == 0 {
        assert(s + tail == s);
        assert(parts.last() + tail == parts.last());
        assert(parts =~= parts.drop_last().push(parts.last()));
    } else {
        let shorter = tail.drop_last();
        assert(tail[tail.len() - 1] == tail.last());
        assert(!shorter.contains(sep)) by {
            if shorter.contains(sep) {
                let i = choose|i: int| 0 <= i < shorter.len() && shorter[i] == sep;
                assert(tail[i] == sep);
            }
        }
        pieces_of_extended(s, shorter, sep);
        assert((s + tail).drop_last() =~= s + shorter);
        let before = parts.drop_last().push(parts.last() + shorter);
        assert(before.drop_last() =~= parts.drop_last());
        assert((parts.last() + shorter).push(tail.last()) =~= parts.last() + tail);
    }
}

/// Joining parts that are free of the separator loses nothing: splitting gives them back.
pub proof fn split_undoes_join(parts: Seq<Seq<char>>, sep: char)
    requires
        parts.len() > 0,
        forall|i: int| 0 <= i < parts.len() ==> !(#[trigger] parts[i]).contains(sep),
    ensures
        text::pieces(text::joined(parts, seq![sep]), sep) == parts,
    decreases parts.len(),
{
    let empty = Seq::<char>::empty();
    if parts.len() == 1 {
        pieces_of_extended(empty, parts[0], sep);
        assert(empty + parts[0] == parts[0]);
        assert(text::pieces(parts[0], sep) =~= parts);
    } else {
        let init = parts.drop_last();
        assert forall|i: int| 0 <= i < init.len() implies !(#[trigger] init[i]).contains(sep) by {
            assert(init[i] == parts[i]);
        }
        split_undoes_join(init, sep);
        let head = text::joined(init, seq![sep]);
        assert((head + seq![sep]).drop_last() =~= head);
        assert(text::pieces(head + seq![sep], sep) == init.push(empty));
        assert(!parts.last().contains(sep)) by {
            assert(parts.last() == parts[parts.len() - 1]);
        }
        pieces_of_extended(head + seq![sep], parts.last(), sep);
        assert(init.push(empty).drop_last() =~= init);
        assert(empty + parts.last() =~= parts.last());
        assert(init.push(parts.last()) =~= parts);
    }
}

/// What tells the keys of the settings dictionary apart: length, first and fifth character.
spec fn mark(key: Seq<char>) -> (nat, char, char) {
    (key.len(), key[0], key[4])
}

/// The keys of the settings dictionary have marks of their own.
proof fn keys_are_apart()
    ensures
        mark("HTTPEnable"@) == (10nat, 'H', 'E'),
        mark("HTTPSEnable"@) == (11nat, 'H', 'S'),
        mark("SOCKSEnable"@) == (11nat, 'S', 'S'),
        mark("HTTPProxy"@) == (9nat, 'H', 'P'),
        mark("HTTPSProxy"@) == (10nat, 'H', 'S'),
        mark("SOCKSProxy"@) == (10nat, 'S', 'S'),
        mark("HTTPPort"@) == (8nat, 'H', 'P'),
        mark("HTTPSPort"@) == (9nat, 'H', 'S'),
        mark("SOCKSPort"@) == (9nat, 'S', 'S'),
        mark("ExceptionsList"@) == (14nat, 'E', 'p'),
        mark("ProxyAutoConfigURLString"@) == (24nat, 'P', 'y'),
        mark("ProxyAutoConfigEnable"@) == (21nat, 'P', 'y'),
{
    reveal_strlit("HTTPEnable");
    reveal_strlit("HTTPSEnable");
    reveal_strlit("SOCKSEnable");
    reveal_strlit("HTTPProxy");
    reveal_strlit("HTTPSProxy");
    reveal_strlit("SOCKSProxy");
    reveal_strlit("HTTPPort");
    reveal_strlit("HTTPSPort");
    reveal_strlit("SOCKSPort");
    reveal_strlit("ExceptionsList");
    reveal_strlit("ProxyAutoConfigURLString");
    reveal_strlit("ProxyAutoConfigEnable");
}

/// The keys that the proxy of one protocol is written under.
pub open spec fn is_key_of(key: Seq<char>, t: ProxyType) -> bool {
    key == t.enable_key() || key == t.host_key() || key == t.port_key()
}

/// The keys that a configuration is written under.
pub open spec fn is_proxy_key(key: Seq<char>) -> bool {
    ||| is_key_of(key, ProxyType::Http)
    ||| is_key_of(key, ProxyType::Https)
    ||| is_key_of(key, ProxyType::Socks)
    ||| key == "ExceptionsList"@
    ||| key == "ProxyAutoConfigURLString"@
    ||| key == "ProxyAutoConfigEnable"@
}

/// A configuration leaves every setting alone that is not its own.
pub proof fn other_settings_are_kept(base: Settings, config: ProxyConfigView, key: Seq<char>)
    requires
        !is_proxy_key(key),
    ensures
        native::with_config(base, config).contains_key(key) == base.contains_key(key),
        base.contains_key(key) ==> native::with_config(base, config)[key] == base[key],
{
}

/// The assignments of a configuration, made on top of any settings, give those settings with the
/// configuration assigned.
pub proof fn assignments_overlay_settings(base: Settings, config: ProxyConfigView)
    ensures
        base.union_prefer_right(native::with_config(Map::empty(), config)) == native::with_config(
            base,
            config,
        ),
{
    assert(base.union_prefer_right(native::with_config(Map::empty(), config))
        =~= native::with_config(base, config));
}

/// The texts of a list in which every item is one.
proof fn all_present(items: Seq<Seq<char>>)
    ensures
        parse::present(items.map_values(|item: Seq<char>| Some(item))) == items,
    decreases items.len(),
{
    let all = items.map_values(|item: Seq<char>| Some(item));
    if items.len() > 0 {
        all_present(items.drop_last());
        assert(all.drop_last() =~= items.drop_last().map_values(|item: Seq<char>| Some(item)));
        assert(items.drop_last().push(items.last()) =~= items);
    } else {
        assert(parse::present(all) =~= items);
    }
}

/// The bypass list is read back as it was written.
pub proof fn bypass_is_read_back(base: Settings, config: ProxyConfigView)
    ensures
        parse::bypass_list(native::with_config(base, config)) == networksetup::domains(
            config.system.bypass,
        ),
        parse::bypass_text(native::with_config(base, config)) == config.system.bypass,
{
    keys_are_apart();
    let bypass = config.system.bypass;
    let settings = native::with_config(base, config);
    assert(settings["ExceptionsList"@] == native::exceptions(bypass));
    all_present(networksetup::domains(bypass));
    reveal_strlit(",");
    assert(","@ =~= seq![',']);
    if bypass.len() == 0 {
        assert(text::joined(networksetup::domains(bypass), ","@) =~= bypass);
    } else {
        join_undoes_split(bypass, ',');
    }
}

/// Whether a proxy is enabled, and has a host and a port to use.
pub open spec fn usable(proxy: SysproxyView) -> bool {
    proxy.enable && proxy.host.len() > 0 && proxy.port != 0
}

/// Every protocol is read back as it was written, enabled where it is usable.
pub proof fn proxies_are_read_back(base: Settings, config: ProxyConfigView, t: ProxyType)
    ensures
        parse::proxy_at(native::with_config(base, config), t) == (SysproxyView {
            enable: usable(config.system),
            bypass: Seq::empty(),
            ..config.system
        }),
        parse::endpoint_at(native::with_config(base, config), t).switched_on
            == config.system.enable,
{
    keys_are_apart();
    let settings = native::with_config(base, config);
    assert(settings[t.host_key()] == PropertyView::Text(config.system.host));
    assert(settings[t.port_key()] == PropertyView::Number(Some(config.system.port as i32)));
    assert(settings[t.enable_key()] == native::switch(config.system.enable));
}

/// The proxy in use is the one that was written, enabled where it is usable.
pub proof fn system_proxy_is_read_back(base: Settings, config: ProxyConfigView)
    ensures
        parse::system_proxy(native::with_config(base, config)) == (SysproxyView {
            enable: usable(config.system),
            ..config.system
        }),
{
    proxies_are_read_back(base, config, ProxyType::Http);
    proxies_are_read_back(base, config, ProxyType::Https);
    proxies_are_read_back(base, config, ProxyType::Socks);
    bypass_is_read_back(base, config);
}

/// Automatic configuration is read back as it was written, enabled where it has an address. A pair
/// of quotation marks is no address.
pub proof fn auto_is_read_back(base: Settings, config: ProxyConfigView)
    ensures
        parse::auto_at(native::with_config(base, config)) == ({
            let url = if config.auto.url == "\"\""@ {
                Seq::empty()
            } else {
                config.auto.url
            };
            AutoproxyView { enable: config.auto.enable && url.len() > 0, url }
        }),
        parse::snapshot_of(native::with_config(base, config)).auto_switched_on
            == config.auto.enable,
{
    keys_are_apart();
    let settings = native::with_config(base, config);
    assert(settings["ProxyAutoConfigURLString"@] == PropertyView::Text(config.auto.url));
    assert(settings["ProxyAutoConfigEnable"@] == native::switch(config.auto.enable));
}

/// The address that the command line carries is read back as the address that was meant, an empty
/// one included. Only a pair of quotation marks, which stands for an empty address, is not: it is
/// read back as empty.
pub proof fn written_address_is_read_back(
    auto: AutoproxyView,
    service: Seq<char>,
    settings: Settings,
)
    requires
        settings.contains_key("ProxyAutoConfigURLString"@),
        settings["ProxyAutoConfigURLString"@] == PropertyView::Text(
            networksetup::auto_commands(auto, service)[0][2],
        ),
    ensures
        parse::pac_url(settings) == if auto.url == "\"\""@ {
            Seq::empty()
        } else {
            auto.url
        },
{
    if auto.url.len() == 0 {
        assert(auto.url =~= Seq::empty());
    }
}

/// What is enabled can be used: a proxy has a host and a port, and automatic configuration has an
/// address. What is enabled is also switched on.
pub proof fn enabled_is_usable(settings: Settings, t: ProxyType)
    ensures
        usable(parse::proxy_at(settings, t)) == parse::proxy_at(settings, t).enable,
        usable(parse::system_proxy(settings)) == parse::system_proxy(settings).enable,
        parse::auto_at(settings).enable ==> parse::auto_at(settings).url.len() > 0,
        parse::endpoint_at(settings, t).enable ==> parse::endpoint_at(settings, t).switched_on,
        parse::auto_at(settings).enable ==> parse::snapshot_of(settings).auto_switched_on,
{
}

/// A snapshot agrees with what is read on its own: every protocol, automatic configuration, the
/// bypass list, and the proxy in use, which is enabled if and only if some protocol's is.
pub proof fn snapshot_agrees(settings: Settings)
    ensures
        ({
            let all = parse::snapshot_of(settings);
            let used = parse::system_proxy(settings);
            &&& all.auto == parse::auto_at(settings)
            &&& all.bypass == parse::bypass_text(settings)
            &&& all.bypass == used.bypass
            &&& used.enable == (all.socks.enable || all.http.enable || all.https.enable)
            &&& all.socks.enable ==> used.host == all.socks.host && used.port == all.socks.port
            &&& !all.socks.enable && all.https.enable ==> used.host == all.https.host && used.port
                == all.https.port
            &&& !all.socks.enable && !all.https.enable && all.http.enable ==> used.host
                == all.http.host && used.port == all.http.port
        }),
{
}

/// A command that succeeded counts as success, whatever it wrote.
pub proof fn success_ignores_output(args: Seq<Seq<char>>, output: CommandOutputView)
    requires
        output.success,
    ensures
        networksetup::verdict(args, output) == Ok::<(), ErrorView>(()),
{
}

/// The exit code for missing rights decides by itself, whatever a failing command wrote.
pub proof fn exit_code_decides(args: Seq<Seq<char>>, output: CommandOutputView)
    requires
        !output.success,
        output.code == Some(networksetup::EXIT_REQUIRES_ADMIN),
    ensures
        networksetup::verdict(args, output) == Err::<(), _>(ErrorView::RequiresAdminPrivileges),
{
}

/// Without that exit code and without the words, a failure is not one of missing rights, and its
/// message holds what the command wrote.
pub proof fn other_failures_keep_details(args: Seq<Seq<char>>, output: CommandOutputView)
    requires
        !output.success,
        output.code != Some(networksetup::EXIT_REQUIRES_ADMIN),
        !text::occurs_in(
            "requires admin privileges"@,
            networksetup::details(text::lossy(output.stdout), text::lossy(output.stderr)),
        ),
    ensures
        networksetup::verdict(args, output) matches Err(ErrorView::NetworkSetup(message))
            && text::occurs_in(
            networksetup::details(text::lossy(output.stdout), text::lossy(output.stderr)),
            message,
        ),
{
    let details = networksetup::details(text::lossy(output.stdout), text::lossy(output.stderr));
    let head = "args="@ + text::quoted_list(args) + ", status="@ + output.status + ", error="@;
    let message = head + details;
    assert(message.subrange(head.len() as int, (head.len() + details.len()) as int) =~= details);
    assert(text::occurs_in(details, message));
}

/// The decimal form has digits only.
proof fn decimal_has_digits(n: nat, i: int)
    requires
        0 <= i < text::decimal(n).len(),
    ensures
        '0' <= text::decimal(n)[i] <= '9',
    decreases n,
{
    if n >= 10 && i < text::decimal(n / 10).len() {
        decimal_has_digits(n / 10, i);
    }
}

/// A failed write is described by its progress alone, and its description does not repeat that of
/// missing rights.
pub proof fn wrapper_does_not_repeat_the_cause(
    progress: WriteProgress,
    source: Box<ErrorView>,
)
    ensures
        (ErrorView::ProxyWrite { progress, source }).message() == progress.summary(),
        !text::occurs_in("admin privileges"@, progress.summary()),
{
    let completed = text::decimal(progress.completed as nat);
    let total = text::decimal(progress.total as nat);
    let summary = progress.summary();
    reveal_strlit("proxy write failed: ");
    reveal_strlit(" of ");
    reveal_strlit(" writes completed");
    reveal_strlit("admin privileges");
    let needle = "admin privileges"@;
    assert forall|i: int| 0 <= i < summary.len() implies #[trigger] summary[i] != 'v' by {
        let first: int = 20;
        if first <= i < first + completed.len() {
            decimal_has_digits(progress.completed as nat, i - first);
            assert(summary[i] == completed[i - first]);
        }
        let second = first + completed.len() + 4;
        if second <= i < second + total.len() {
            decimal_has_digits(progress.total as nat, i - second);
            assert(summary[i] == total[i - second]);
        }
    }
    assert(needle[9] == 'v');
    assert forall|i: int| 0 <= i <= summary.len() - needle.len() implies #[trigger] summary.subrange(
        i,
        i + needle.len(),
    ) != needle by {
        assert(summary.subrange(i, i + needle.len())[9] == summary[i + 9]);
    }
}

/// The writes of each operation are as many as its progress counts.
pub proof fn totals_count_the_commands(
    proxy: SysproxyView,
    auto: AutoproxyView,
    t: ProxyType,
    service: Seq<char>,
)
    ensures
        networksetup::system_commands(proxy, service).len() == networksetup::SYSTEM_PROXY_WRITES,
        networksetup::proxy_commands(proxy, t, service).len()
            == networksetup::WRITES_PER_PROXY_TYPE,
        networksetup::auto_commands(auto, service).len() == networksetup::AUTO_PROXY_WRITES,
        seq![networksetup::bypass_command(proxy, service)].len() == networksetup::BYPASS_WRITES,
{
}

} // verus!
