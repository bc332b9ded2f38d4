# NFC Bridge

Reads card UIDs from a PC/SC NFC reader and delivers them to browsers over a local WebSocket
server. Runs as a Windows service, or in a console.

```
[NFC reader] --PC/SC--> [nfc-bridge] --WebSocket--> [browser]
                         ws://localhost:9876
```

## Layout

- `src/` is the library: everything the bridge decides, verified with Verus. It performs no
  input or output. Where smart card, registry or network operations and decisions alternate,
  a function takes what came of the operations so far and says what to do next.
- `tests/` holds the library's tests.
- `app/` is the program around the library: command line, files, smart card service, registry,
  WebSocket connections and the Windows service.

| module | what it holds |
| --- | --- |
| `config` | settings from the command line, a TOML file and defaults |
| `events`, `json` | events and the JSON messages that carry them |
| `nfc::reader`, `nfc::debounce` | polling the first reader, and what is reported about it |
| `nfc::license`, `nfc::apdu` | reading driver's licenses and car inspection certificates |
| `ws::server` | the connected browser clients |
| `registry_sounds` | silencing and restoring Windows device sounds |
| `service`, `bridge` | run mode, service status, start-up |
| `error`, `text`, `clock` | errors, digits, monotonic time |

## Messages

```json
{"type":"nfc_read","employee_id":"AABBCCDD"}
{"type":"nfc_error","error":"no_readers"}
{"type":"status","readers":["ACS ACR122U"],"connected":true,"version":"0.1.0"}
{"type":"nfc_debug","message":"[license] card_id: AABBCCDD"}
```

## Configuration

`nfc-bridge.toml` next to the executable, or the file given with `--config`. These are the
defaults:

```toml
port = 9876
bind_addr = "127.0.0.1"
poll_interval_ms = 200
cooldown_ms = 3000
log_dir = ""
```

`--port`, `--poll-interval-ms`, `--cooldown-ms` and `--bind-addr` override the file. Pass
`--console` to run in a console.

## What is trusted

The proofs rest on a few stated facts about code that is not verified here:
`serde_json::to_string` on a string, `toml::from_str`, `std::str::from_utf8`, `String::push`
and the monotonic clock. Each is declared in `src/` with a comment that says what is claimed.
