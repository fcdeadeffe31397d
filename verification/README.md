# pam

Building blocks for PAM modules written in Rust, verified with Verus.

- `src/` is the verified library: PAM result codes and their C numbers,
  the validation of what PAM passes to a module entry point, the framing of
  conversation messages and the meaning of a conversation's status,
  `SecretBytes` (an owned buffer wiped on drop), and the decisions of the
  example modules (quiz, data, username).
- `app/` is the C-facing glue: the `pam_hooks!` entry points, panic
  containment, the conversation call through PAM's function pointer, and
  wiping of raw memory.
- `tests/` exercises the library, including in-process stand-ins for the
  `pamtester` runs of the example modules.
