# vredditor

A websocket server that transcodes videos: clients authenticate with a
token, ask for a URL to be transcoded, and poll the job's status; a job
runner downloads the media with youtube-dl, merges audio and video with
ffmpeg and uploads the result to S3.

Layout:

- `src/` — the verified library (Verus):
  - `proto.rs` — request/response messages, job states and their display
    text, websocket frames and the conversions between frames and messages;
  - `session.rs` — the per-connection state machine: what the server answers
    to each client message and which state the connection moves to;
  - `jobs.rs` — the job lifecycle (queued, processing, uploading, completed);
  - `token.rs` — handshake token authorization from a base64 key list;
  - `s3.rs` — the upload request builder and the names of uploaded files;
  - `ytdl.rs` — choosing the formats to download, and command lines;
  - `text_protocol.rs` — the line-based text protocol;
  - `weburl.rs`, `file.rs`, `text.rs` — URLs, random names, string utilities.
- `app/` — the program around it: sockets, the job queue, processes, HTTP,
  S3, temporary files, and the protobuf encoding of messages.
- `tests/` — tests of the library.

Running: `vredditor [ADDR]` serves the websocket protocol on `ADDR`
(default `0.0.0.0:8080`); `vredditor --text-protocol [ADDR]` serves the
line-based text protocol. The authorized keys are read, base64-encoded and
comma-separated, from `VREDDITOR_VALID_KEYS`.
