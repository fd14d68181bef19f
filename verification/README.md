# sysproxy

Reading and writing the system proxy of macOS, verified with Verus.

The library decides and the operating system is asked: every operation is a task (`src/system.rs`)
that names one action at a time, is told the reply, and ends with a result. What a task asks for in
each state, and where each reply takes it, is part of its contract.

- `proxy`, `property`, `error`: the settings, settings dictionaries, failures.
- `parse`: reading proxies, automatic configuration and the bypass list out of a dictionary.
- `services`, `read`: finding the active or a named service and reading its settings, from the
  preferences first and from the dynamic store after them.
- `networksetup`, `write`: command lines for `networksetup`, what their outcome means, and how far a
  sequence of them came before one failed.
- `native`: HTTP, HTTPS, SOCKS, PAC and bypass settings in one transaction on the preferences,
  without another process. It does not ask for authorization.
- `preferences`: trying the lock on the preferences.
- `text`: splitting, joining, trimming, searching and formatting.
- `laws`, `dialogue`, `host`: what holds of the library as a whole. What was written is read back,
  other settings are kept, what was taken is given back, every task comes to an end.

`app/` carries the actions out: with the SystemConfiguration framework on macOS, and by running
`/usr/sbin/networksetup`.
