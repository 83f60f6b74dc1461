# walpipe

A client for the logical replication of PostgreSQL. It follows the log of a
database and hands the rows of the table `event_stream` to a sink: the standard
output, an HTTP endpoint, or Hook0. Deliveries to Hook0 are recorded in the table
`event_history`.

- `src/` is the verified library: the configuration, the protocol, the
  replication loop, the delivery of events and the record of deliveries, with
  their contracts, and the laws that hold of them (`pub proof fn law_*`).
- `tests/` runs the library on concrete values.
- `app/` is the program around it: the database connection, the network, the
  clock, signals and logging. It goes on without recording deliveries where the
  recorder cannot connect.

| Module | What it holds |
| --- | --- |
| `config`, `sink` | the configuration, and the sink that it asks for |
| `wire`, `protocol`, `messages` | the replication stream as bytes and as messages |
| `server`, `reconnect` | the checks, the replication loop, and the runs around it |
| `pg_type`, `column`, `decoder`, `event_row` | from the text of columns to an event |
| `hook0`, `delivery`, `hook0_error`, `email` | sending an event, and what follows |
| `event_history` | the statements and batches of the event history |
| `text`, `text_map`, `ids`, `time`, `json`, `errors` | the values that the others are made of |

The client is configured by environment variables: `DATABASE_URL` (required),
`SLOT_NAME` (`sub`), `PUB_NAME` (`pub`), `EVENT_SINK` (`stdout`, `http` or
`hook0`; `stdout` by default), `HTTP_ENDPOINT_URL`, `HOOK0_API_URL`,
`HOOK0_APPLICATION_ID` and `HOOK0_API_TOKEN`. Notifications by email need
`SMTP_HOST`, `SMTP_PORT`, `SMTP_USERNAME`, `SMTP_PASSWORD`, `FROM_EMAIL` and
`TO_EMAIL`.
