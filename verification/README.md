# http2fifo

Bridges an HTTP streaming endpoint to a Unix named pipe (FIFO). Any program that
can `open()` and read a file can consume an HTTP stream.

```
reader (cat, mpv, ffmpeg, ...)  <--  FIFO  <--  http2fifo  <--  HTTP stream
```

`src/` is a library that is verified with [Verus](https://github.com/verus-lang/verus).
It makes the decisions: what a command line means, what a mount does next, how the
results of several mounts come together, what is reported and with which exit code
the program ends. It performs none of it.

- `mount.rs` is a mount as a machine: an action out, a reply in. `protocol.rs` says
  what it does in mathematical terms, and `runs.rs` what holds of every run: the
  FIFO is unlinked on all exit paths, an existing entry is never overwritten, the
  body is delivered byte for byte, and so on.
- `fifo.rs`, `http.rs`, `config.rs` and `error.rs` are what a mount is made of.
- `mount_all.rs` runs several mounts side by side.
- `cli.rs`, `logging.rs` and `exit.rs` are for the program.
- `text.rs` is about characters and bytes.

`app/` is the program: it does what the library asks for, on disk and on the wire.

## Usage

```bash
http2fifo <URL> <FIFO_PATH>
http2fifo --mount <URL1> <FIFO1> --mount <URL2> <FIFO2>
```

When a stream ends, its FIFO is unlinked and made anew for the next reader.

| Flag | Short | Description |
|---|---|---|
| `--method METHOD` | `-X` | HTTP method (default: `GET`) |
| `--header NAME:VALUE` | `-H` | Request header, repeatable |
| `--data BODY` | `-d` | Request body |
| `--fail-fast` | | Cancel all mounts if any one fails |
| `--log-level LEVEL` | | `off/error/warn/info/debug/trace`; overrides `RUST_LOG` |

| Exit code | Meaning |
|---|---|
| `0` | All streams finished cleanly |
| `1` | One or more errors |
| `130` | Killed by SIGINT |
| `143` | Killed by SIGTERM |
