//! A mediator between a frame-driven mail client and the blocking operations
//! of a disposable-mailbox service.
//!
//! The interface side ([`app::TempMailApp`]) turns user intent into commands
//! and merges responses into its state, one per redraw. The worker side
//! ([`event_handler::Handler`]) takes commands in arrival order and keeps at
//! most one network operation outstanding. Both sides are plain state
//! machines: whoever embeds them moves the messages between threads and
//! performs the network operations that the worker asks for.
//!
//! [`queue`] holds the queues on which both sides keep their messages,
//! [`mail`] the messages and attachments of a mailbox, [`date`] the wording
//! of arrival times, and [`mediator`] what is proved of the two sides alone
//! and together.

pub mod app;
pub mod date;
pub mod event_handler;
pub mod mail;
pub mod mediator;
pub mod queue;
