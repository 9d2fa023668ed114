# antigravity_quota

Checks Google Antigravity quota from the command line, with the OAuth token
that the Antigravity ACP agent keeps in
`~/.gemini/antigravity-acp/acp_token.json`.

```text
antigravity-quota [--json | --raw] [--token-file PATH]
antigravity-quota history [--last N]
```

## Layout

- `src/` is the library, verified with Verus. It decides and computes: command
  line, token search, refresh, requests, redaction, fallback between hosts,
  rendering, history rows. It touches no file, socket or clock.
- `app/` is the program around it: files, HTTP, SQLite, the terminal, and
  the floating-point arithmetic on percentages.
- `tests/` runs the library.

## What is proved

Every executable function of the library has a contract over mathematical
views. Properties that relate several functions are public proof functions
whose names begin with `law_`; their comments state them in words. Among them:

- either call failing on a host makes both calls start over on the next host
  (`fetch`);
- where a check fails, its message does not show the access token, whatever
  the hosts answer, nor the refresh token or the client secret, whatever the
  token endpoint answers; `secrecy` says under which conditions: on the secret
  itself, on the texts around the answers, such as addresses and status lines,
  and, for the last two, on what the hosts answer, which are never sent them;
- the access token goes to the given hosts only, and only with the two calls
  of the API (`fetch`, `workflow`);
- without raw output, an answer that is not an object with a `groups` field is
  an error and never an empty quota (`workflow`).

What is taken on trust is what `str::trim` and the parser, the writer and the
document type of `serde_json` do. The comments in `text` and `json` say what is
claimed of each.
