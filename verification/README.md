# Noap server

The backend of Noap, a notes application: accounts with passwords, Google
sign-in, second factors and passkeys; notes with labels; scheduled activities
with streaks; and push reminders.

`src/` is the library. Its items are verified by Verus. A handler is a state
machine: it says what is to be done next (`flow::Action`), and goes on when it
is told what came of it (`flow::Event`). Its contract says, for every event, the
next action or the reply. No handler touches the network or the disk, and the
time is handed to it.

- `handlers/`: accounts and sign-in (`user`), `passkey`, `session`, `note`,
  `label`, `activity`, `push`
- `middleware/auth`: which requests have a live session
- `models/`: stored documents, and how dates and identifiers are read
- `utils/`: tokens and passwords (`crypto`), one-time codes (`totp`),
  `webauthn`, `cookies`, `ratelimit`, `geo`, `flag`, `mail`
- `config`, `routes`, `http`, `content`: what the server is configured with, its
  endpoints, its replies, and their JSON
- `json`, `text`, `numbers`, `time`, `object_id`, `encoding`, `pagination`,
  `lists`: the plain data that the rest is made of

Functions named `law_..` are proofs of properties that span several functions.
Where they speak of what is stored after several requests, the module `stored`
beside the handler, or the law itself, says how an action changes the rows.
Calls into other crates stand behind functions marked
`#[verifier::external_body]`; the comment above each says what is believed of
the call.

`app/` is the program: it reads the environment, serves HTTP, performs the
actions on MongoDB, mail and push services, and sends the replies.

`tests/` runs the library on concrete values.
