//! Layered dissection of raw link-layer frames, and the decisions of a
//! packet sniffer around it: a cancellable capture session, the events it
//! sends to a single consumer, and the state that the consumer keeps.
//!
//! The header decoders in `decode` are calls into `pnet`; `wire` says what
//! they read from which bytes. Everything else is verified: which decoder
//! runs and what a captured packet holds (`dissect`), how a session and its
//! identifiers advance (`capture`), when a session starts and stops
//! (`sniffer`), when a render tick is due (`scheduler`), what each event
//! does to the application (`app`), and what the views show (`widgets`).
//!
//! Nothing here owns a thread, a channel or a terminal. The functions take
//! what happened outside as plain values and answer with what is to be
//! done next.

pub mod packet_data;
pub mod wire;
pub mod decode;
pub mod dissect;
pub mod capture;
pub mod scheduler;
pub mod event;
pub mod interfaces;
pub mod sniffer;
pub mod app;
pub mod widgets;
