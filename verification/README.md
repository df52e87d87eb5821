# zenbook-duo-daemon

Daemons for the ASUS Zenbook Duo: one for the machine, which drives the detachable keyboard, the
switch of the lower panel and the stored settings, and one for each desktop session, which keeps the
layout of the two panels as it is wanted.

The library under `src/` holds the decisions of the two daemons as verified code: what a report of
the keyboard means, which state follows an event and what is to be done then, which layout is asked
for and when it counts as applied. Left to the program are the comparisons of floating-point numbers
that are named below. Its functions take plain values and return plain values, and their
contracts say which. Loops that alternate waiting and deciding are state machines: a `step` takes
what has happened and returns what to do next.

| Modules | Subject |
|---|---|
| `state`, `state_manager`, `events` | the machine's state, what is stored of it, and what a change leads to |
| `dbus_state`, `polkit`, `control` | calls on the system bus: who may make them and what they do |
| `secondary_coordinator`, `secondary_display` | the lower panel: who is told, and when its switch is written |
| `keyboard_usb`, `usb_keyboard_ports`, `keyboard_battery`, `hex` | the keyboard on USB and on the dock |
| `keyboard_bt`, `bt_readers`, `keyboard_battery_bt` | the keyboard over Bluetooth |
| `virtual_keyboard`, `config`, `idle_detection`, `dwt`, `ambient_light` | keys, idleness, the touchpad while typing, the light sensor |
| `session_bus`, `session::apply`, `session::display`, `session::display_mode`, `session::reconcile` | the layout of the panels |
| `session::notifications`, `session::battery_notices`, `session::battery_monitor` | what the user is told, and when the battery is asked for |
| `session::ambient`, `session::orientation`, `session::osk`, `session::tablet_mapping` | settings of the desktop |
| `daemon_socket`, `session_client`, `unix_pipe` | older channels between the daemons and to scripts |
| `text`, `seqs` | strings and sequences |

The few functions of the standard library that the proofs take on trust stand at the top of
`src/text.rs`. Statements about several functions at once are the public proof functions whose names
begin with `law_`.

`app/` is the program: the command line, the buses, the devices and the files. Scales of displays,
light levels and charging rates are floating-point numbers; they are compared there, and the library
takes the outcome.
