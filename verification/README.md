# vendctl

The logic of an ESP32 control panel — a web panel with a single admin session,
Wi-Fi station and access point management, and a Discord bot — as a Verus-verified
library, with the device and network work in a thin program around it.

- `src/` — the verified library:
  - `text` — string operations (replace, trim, split, search, number formatting)
    specified over `Seq<char>`;
  - `web::auth` — the session store (login, logout, sliding 15-minute timeout);
  - `web::server`, `web::init` — routes, cookie parsing, what each request is answered;
  - `system` — status report, reply placeholders, cached internet check;
  - `wifi` — reconfiguration plans for the radio, scan listing, the rejoin manager;
  - `discord` — configuration, gateway events and heartbeat, command replies and
    the requests sent to the Discord API.
- `app/` — the firmware's `main`, the ESP-IDF calls, storage, threads and sockets.
- `tests/` — tests of the library on concrete values.
