# teams_cli

A terminal client for Microsoft Teams, built around a verified core.

`src/` is the library, verified with Verus: the domain rules (chat ids,
message validation, HTML stripping and escaping, token expiry), the
classification of failures, the chat and message lists built from the chat
service's records, the service URLs and the fallback across the
conversation endpoints, the Trouter frame reading, the listener session
steps, the reconnect policies, the decisions of the login and status
commands and the acquisition of the derived tokens, the console rendering,
and the state, key handling and backend requests of the terminal interface.

`app/` is the program around it: command-line parsing, the TOML config file,
the HTTP and OAuth2 exchanges, the asynchronous services, and printing.

Three features are not available in this program and end with an error:
the terminal interface (`tui`; the library holds its state and key
handling, but no screen is drawn), the call test (`call-test`), and the
Trouter session transport (negotiation, registration and the socket.io
WebSocket), so `trouter` and realtime subscriptions fail once the stored
Skype token has been checked.

`tests/` exercises the library.
