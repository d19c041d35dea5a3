# dragonfox_vpn

A system tray client that routes a machine's traffic through a Raspberry Pi
OpenVPN gateway, switches the gateway's VPN location through its web page,
and watches the connection (with a kill switch and optional
auto-reconnect).

## Layout

- `src/` — the verified library (Verus). The client's decisions are here,
  with their contracts: parsing the switcher page, the location list's
  order and filtering, the routing command plans and how their outputs are
  judged, the health monitor with its drop debouncing, the daemon's state
  machine, published status and notifications, the command queue between
  the dialogs and the daemon, translations, and the settings form's checks.
- `tests/` — tests of the library.
- `app/` — the program around the library: the tray icon, the dialog
  windows, HTTP, running shell commands, files, clock and notifications.

The message catalogues (`locales/<code>.json`) and the about window's logo
(`senjin_logo.png`) are read at run time from beside the executable.
