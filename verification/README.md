# starship_ffi

The verified core of a library that lets a shell render its Starship prompt
in-process, through one prompt-rendering session per shell process.

- `src/convert.rs` — decoding of the C strings and string arrays of a prompt
  request (UTF-8 checked by `std::str::from_utf8`), cutting text at its first
  NUL before it goes to C, and the message of a caught panic.
- `src/ffi.rs` — the prompt request and its decoded properties, the cache
  counters, the errors and their messages, and the session lifecycle:
  `ssp_init`, `ssp_shutdown`, `ssp_render` and `ssp_stats` on a
  `SessionHost`, including the refusal of forked child processes.
- `src/laws.rs` — properties across calls: repeated creation and shutdown
  change nothing, no session survives a shutdown, a forked child is refused
  everywhere, a NUL cuts text exactly there.
- `app/lib.rs` — the C exports: raw pointers, the process-wide mutex and
  recorded process id, panic catching, and the calls into Starship's session.
