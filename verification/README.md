# chat_server

A small chat server. Users say hello to register under a unique name, post
messages to a global conversation or to private conversations between groups
of users, ask for the messages they may see, and say goodbye.

- `src/` is the library, verified with Verus. `servidor.rs` states the rules
  of the server over its abstract state (`comando_de`, `efeito`,
  `resposta_de`) and implements them; `leis.rs` proves what holds of them
  (the invariant, that nothing is lost, that a message posted is what the next
  read shows, that private conversations are shown only to their members).
- Users are shared handles (`RefUsuario = Arc<Usuario>`): the server, commands,
  messages and conversations all hold handles on the same user, and its
  online flag is an `AtomicBool` that every handle sees. Reading that flag
  gives whatever was last stored through any handle, so the verified state
  holds a user's name but not its online flag, and no contract states what a
  read of the flag returns; the tests check it.
- `app/` is the program: TCP with tokio, and the JSON form of requests and
  replies with serde.
- `tests/` runs the library on concrete requests.
