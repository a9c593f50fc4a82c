# Loofa

A small terminal chat, with its logic verified by Verus.

- `src/` is the verified library:
  - `server/`: logins and session tokens (`login.rs`), the session and
    connection tables (`sessions.rs`), and who may open a socket and what its
    messages become (`ws.rs`);
  - `user/`: the client's login (`login.rs`), the socket address and
    handshake status (`client.rs`), and the chat window with its input row
    (`ui.rs`);
  - `screen.rs`: terminal layouts and the first scratchpad prototype;
  - `text.rs`: character-level string operations;
  - `utils/structs.rs`: the messages exchanged.
- `app/` is the program around it: `loofa server`, `loofa user`, or the
  scratchpad with no argument. It does the terminal, network and task work
  and asks the library what to do.
- `tests/` exercise the library on concrete values.
