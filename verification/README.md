# fiducia-backend

The customer portal and interface of fiducia.cloud, with its decisions verified by
[Verus](https://github.com/verus-lang/verus).

`src/` is the library. It decides who is let in, for which organisation a request acts, what
the credential authority and the identity provider are asked, what their answers come to, what
is recorded of a payment, and what the caller is told. It does no input or output. Where a
decision needs something from outside, it is made in steps: a function says what is to be
asked, and another takes what came back. Every function states its result, and the files named
`*_laws.rs` prove what the functions guarantee together.

| Modules | What they decide |
| --- | --- |
| `text`, `percent`, `ids`, `times`, `digest` | texts, query values, identifiers, points in time, digests |
| `json`, `headers`, `reply` | JSON values, request headers, answers |
| `auth` | the credential of a request, and the session it stands for |
| `orgs` | the organisation a request acts for, and its idempotency key |
| `upstream`, `api_keys`, `key_requests`, `key_table` | API keys, which belong to the credential authority |
| `supabase_auth`, `supabase_answers` | logins without a password, and second factors |
| `security` | origin, request token, assurance and caching of each path |
| `session_assurance` | the binding of browser sessions to a second factor |
| `throttle` | budgets for login attempts |
| `billing` | webhooks of payment providers |
| `queries`, `statements`, `store`, `account`, `activity` | the customer database, and the customer's own data |
| `site` | settings, hosts, and what the site tells of itself |

What other crates compute (JSON values, header maps, identifiers, digests, dates, addresses) is
called through small functions whose contracts are believed; each says in its comment what it
claims of the call.

`app/` is the program around the library: routes, network, database and pages. It takes two
components from a deployment, the checks of origin and request token and the signature schemes
of the payment providers. Without them it turns customer requests and webhooks away.

`tests/` runs the library with the real crates linked.
