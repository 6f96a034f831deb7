//! A transcoding job server: the wire protocol, the per-connection session
//! state machine, the job lifecycle, authorization of handshake tokens,
//! upload request building and download planning, each with its contract.

pub mod text;
pub mod text_protocol;
pub mod file;
pub mod jobs;
pub mod proto;
pub mod s3;
pub mod session;
pub mod token;
pub mod weburl;
pub mod ytdl;
