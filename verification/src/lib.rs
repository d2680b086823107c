//! Point-in-time host diagnostics: a system snapshot builder, audio and
//! camera device enumeration, GPU inventory readers, and a best-effort
//! network probe. Every function here computes over plain values handed
//! in by an unverified shell that performs the actual OS and network
//! calls; the parsing, the arithmetic and the probe's sequencing are all
//! verified.

pub mod audio;
pub mod camera;
pub mod gpu;
pub mod jsonval;
pub mod net;
pub mod platform;
pub mod snapshot;
pub mod strutil;
