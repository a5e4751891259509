# huali_desktop

The verified core of the 華利建機處 desktop shell (a Tauri v2 app that loads
the online portal and runs a local HTTP bridge on `127.0.0.1:3710`).

`src/` is the library, checked by Verus:

- `query` — request targets and query strings (`k=v&…`, percent-decoded,
  later keys winning), with the split/rejoin and override laws.
- `urlcodec` — percent-encoding and -decoding through `urlencoding`, stated
  over UTF-8 bytes.
- `bridge` — routing of the bridge's endpoints and the plan for each request,
  plus the replies that follow the I/O it asks for.
- `oauth` — the loopback OAuth flow: authorisation URL, callback page and the
  token slot with its expiry rules.
- `window` — child-window labels and URLs, the navigation script, tray menu
  dispatch, close and autostart decisions.
- `mime`, `files`, `json`, `reply`, `body`, `text`, `clock` — media types,
  directory listings, the JSON reply model, reply headers, JSON request
  bodies (through `serde_json`), string helpers and the clock.

`app/` is the program: Tauri setup, the tray, the `tiny_http` server loop,
the file system and process calls, and the updater. It performs what the
library's plans ask for and renders its replies.
