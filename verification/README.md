# eyebot

A Twitch chat bot whose decisions are verified with Verus.

- `src/` is the verified library: the EventSub and Comet data, the chat
  commands and channel point redeems, the relay of chat messages to the Comet
  overlay, the OAuth token decisions, the Helix request bodies, and what the
  bot does with each websocket frame.
- `app/` is the program around it: reading the tokens, the websockets, the
  HTTP requests, and the serde forms of the library's types.
- `tests/` runs the library on concrete values.
