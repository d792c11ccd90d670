# Codex Proxy

A proxy that offers an OpenAI-compatible endpoint backed by a Codex account.

- `src/` is the library: the rules of the proxy, with contracts that Verus proves. `openai` turns
  chat completion requests into requests to the Codex backend, `stream` reads the event
  stream of the backend and makes the one that a client gets, `server` admits and plans requests,
  `auth` signs in and keeps the access token fresh, `codex` makes the headers of
  requests to the backend, `config` and `cli` hold the settings, the menus and the reports,
  `diagnostics` keeps secrets and pictures out of the log, and `error` says what clients are told
  when something fails. `text` and `json` are what these are built on. `headers`, `encoding` and
  `clock` hold the calls into other crates, each with what is claimed of it.
- `app/` is the program around it: the command line, files, the network and the terminal. It also
  turns JSON into the types of the library and back, and reads addresses.
- `tests/` run the library.

The functions whose names begin with `law_` state what holds across the functions of the library,
such as that the way in which the text of the backend's stream is cut into pieces does not change
the answer. That is said of text: each chunk that the network delivers is decoded by itself, so a
cut inside a character that takes several bytes does show in the answer.

## Use

```bash
codex-proxy                  # the menu
codex-proxy login browser    # sign in, then serve
codex-proxy login device
codex-proxy serve --host 127.0.0.1 --port 8080
codex-proxy auth status
codex-proxy logout
```

Clients send one of the keys that the menu creates as a bearer token. `GET /v1/models` needs no key.
