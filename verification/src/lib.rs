//! A small framework for building distributed protocol components out of
//! composable message handlers connected by network transports, plus a
//! rendezvous (barrier) coordination primitive built on top of it.
//!
//! The crate is organised bottom-up: [`addr`] models peer addresses as plain
//! values, [`app`] holds the handler/processor composition model, [`message`]
//! the envelope adapters, [`mailbox`] the synchronous-push/asynchronous-pull
//! channel model, [`dispatch`] the address router, [`frame`] the
//! length-prefixed wire format, [`tcp`] the framed link state machine, and
//! [`barrier`] the quorum-counting rendezvous service.

pub mod addr;
pub mod app;
pub mod barrier;
pub mod dispatch;
pub mod frame;
pub mod mailbox;
pub mod message;
pub mod tcp;
pub mod udp;

pub use addr::SocketAddr;
