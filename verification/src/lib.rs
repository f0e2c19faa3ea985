//! A client-side implementation of the Java Debug Wire Protocol: the packet
//! framing, the typed value codec whose identifier widths are negotiated per
//! connection, the command catalogue, and the decisions of the multiplexing
//! client, each with a machine-checked contract.
//!
//! The modules, leaves first:
//!
//! - [`buffer`]: the byte buffers of the `bytes` crate, as far as the codecs
//!   rely on them;
//! - [`wire`]: big-endian integers;
//! - [`constants`], [`namespaces`], [`ids`], [`values`], [`id_sizes`]: the
//!   types of the protocol;
//! - [`codec`], [`primitives`], [`compound`]: the value codec;
//! - [`packet`], [`framing`]: raw packets and the framing codec;
//! - [`commands`], [`events`]: the command catalogue and the events;
//! - [`session`]: what the client decides, free of I/O;
//! - [`codec_laws`], [`framing_laws`]: what holds of the two codecs.

pub mod buffer;
pub mod codec;
pub mod codec_laws;
pub mod commands;
pub mod compound;
pub mod constants;
pub mod events;
pub mod framing;
pub mod framing_laws;
pub mod id_sizes;
pub mod ids;
pub mod namespaces;
pub mod packet;
pub mod primitives;
pub mod session;
pub mod values;
pub mod wire;
