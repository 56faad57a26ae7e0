# matrix-identity-admin

An administration console for a Matrix homeserver whose accounts live in
Keycloak and the Matrix Authentication Service (MAS): searching users,
inviting, disabling, offboarding, reactivating and deleting them, revoking
their sessions, keeping their room memberships in line with a group and role
policy, and keeping an audit log of every action.

## Layout

- `src/` is the verified library, checked by Verus.
  - `services/` holds the workflows (invite, disable, offboard, reactivate,
    delete, membership reconciliation, bulk reconciliation, policy bootstrap
    and room-cache refresh). Each is a state machine: it asks for one
    `Command` at a time and is resumed with the `Reply`, and its contract
    states every step over a mathematical view of its state. Proof functions
    named `law_*` state what holds across steps.
  - `handlers/` holds what the web pages decide: redirects, filters, paging,
    form parsing and the audit records of single actions.
  - `auth/`, `config.rs`, `db/`, `models/`, `clients.rs`, `calendar.rs`,
    `text.rs` and `utils.rs` hold the session and login checks, the
    configuration, the SQL the store runs, the data model, the parts of the
    upstream clients that compute, the calendar, and string helpers.
- `tests/` runs the library on concrete values.
- `app/` is the server: HTTP clients of Keycloak, MAS and Synapse, the SQLite
  store, the OpenID Connect login, the HTML and the routes. It performs the
  commands of the workflows and feeds their replies back.
