# notebot

An event-driven runtime for Misskey bots, written in Verus. The library in `src/` holds what a
bot decides, with contracts that Verus proves; `app/` is the ordinary Rust around it: the
Misskey client, the event stream, signals, files and environment variables.

| module        | what it decides                                                        |
|---------------|------------------------------------------------------------------------|
| `event`       | which stream messages are events; which note ids were already seen     |
| `bot`         | how a bot is built, what reaches its handler, when it connects and ends |
| `context`     | what is sent in answer to a note, and who can read it                  |
| `credentials` | whose token is used: the environment's, or that of a stored account    |
| `resolution`  | which file, server or store is asked for the credentials, and when     |
| `echo`        | a bot that sends back what it is told                                  |
| `models`      | notes, notifications, accounts and API requests                        |
| `json`        | `serde_json::Value`, stated over a mathematical JSON tree              |
| `text`        | operations on text, stated over sequences of characters                |
| `error`       | what can go wrong                                                      |

What holds of the library as a whole is stated by the public proof functions whose names begin
with `law_`: the bot never answers itself, a reply is never public, a direct message is answered
to its readers and its author, an unknown message is ignored, a running bot disconnects before
it ends, the credentials of a bot are those of the account that was resolved.

Believed without proof: the calls into `serde_json` in `src/json.rs`, and nothing else.
