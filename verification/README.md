# racetime

Utilities for chat bots on racetime.gg, with the bot's decisions written in
Verus and proved against their contracts.

- `src/` is the verified library:
  - `connection.rs`: the race room connection as a state machine (read,
    dispatch to the handler, answer pings, liveness probes, reconnects), with
    its laws;
  - `bot.rs`: error contexts, reconnect backoff, token renewal schedule, the
    set of handled races and the paths the bot requests;
  - `rooms.rs`: the forms that create and edit race rooms (keys in ascending
    order) and the reading of a new room's location;
  - `handler.rs`: chat commands, command permissions and race info;
  - `messages.rs`: the JSON text of the actions sent to a race room;
  - `model.rs`: race status and durations in Django's notation;
  - `duration.rs`, `text.rs`, `builder.rs`, `lib.rs`: durations, text helpers,
    bot settings, URIs and the authorization form.
- `app/` is the asynchronous I/O around it: HTTP, websockets, serde types and
  the `RaceHandler` trait, driving the library's state machine.
- `tests/` runs the library on concrete values.
