# animus-subject-sentry

Sentry issue subject backend for [Animus](https://github.com/launchapp-dev/animus-cli), with its
logic verified in [Verus](https://github.com/verus-lang/verus).

Sentry issues are exposed as Animus incident subjects, so that workflows can triage production
errors, assign ownership, and resolve or ignore issues through the subject protocol: `subject/list`,
`subject/get`, `subject/update`, `subject/schema` and `health/check`.

## Configuration

| Env var | Default | Purpose |
| --- | --- | --- |
| `SENTRY_AUTH_TOKEN` | unset | Sentry authentication token. |
| `SENTRY_ORG_SLUG` | unset | Sentry organization slug. |
| `SENTRY_PROJECT_IDS` | unset | Optional comma-separated project ids included in `subject/list`. |
| `SENTRY_QUERY` | unset | Optional Sentry issue search query for `subject/list`. |
| `SENTRY_API_BASE` | `https://sentry.io/api/0` | Sentry API base URL override. |

Subject ids have the shape `sentry:<issue-id>`.

## Layout

- `src/` is the verified library. It says which requests an operation makes and what follows from
  their answers; it sends nothing itself.
  - `backend` holds the operations, `issue` the mapping from issues to subjects, `filter` the
    filters and their search queries, `config` the configuration, `http` the meaning of answers,
    `schema` what the backend supports, and `protocol` the values of the subject protocol.
  - `native_id`, `text`, `percent`, `time` and `json` hold ids, strings, percent-encoding,
    timestamps and JSON values. JSON parsing, timestamp parsing, percent-encoding and the display
    of HTTP statuses come from `serde_json`, `chrono`, `urlencoding` and `reqwest`; what is taken
    on trust of each stands in the doc comment of the function that calls it.
  - `laws` states what holds across operations.
- `app/` is the plugin process: it reads the environment, sends the requests and speaks the
  protocol.
- `tests/` runs the library on concrete values.

## License

MIT.
