# guerrillamail_client_c

A blocking C interface to the asynchronous `guerrillamail-client` crate, with
its logic verified by Verus.

- `src/` is the verified library:
  - `status.rs`: status codes and how client errors map onto them;
  - `last_error.rs`: the per-call last-error slot (NUL-terminated UTF-8 text);
  - `builder.rs`: builder settings, their defaults, and the client-crate
    builder they produce;
  - `values.rs`: the owned strings, message lists and e-mail details handed to
    C callers, and how they are filled and released;
  - `client.rs`: the client handle, runtime creation, and error recording;
  - `ffi.rs`: each entry point's argument checks, messages and outcomes;
  - `outside.rs`: the calls into `guerrillamail-client`, Tokio and std that
    are taken on trust, each with its contract.
- `app/` holds the `extern "C"` functions: raw pointers, the thread-local
  last-error slot, panic catching, and the blocking network calls.
- `tests/` exercises the library on concrete values.
