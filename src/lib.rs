//! Core of a small actor runtime: the actor lifecycle, the mailboxes that
//! feed a context, envelopes with one-shot reply sinks, and the two kinds of
//! address through which other code reaches an actor.
pub mod address;
pub mod context;
pub mod fut;
pub mod lifecycle;
pub mod mailbox;
pub mod reply;
pub mod sync_address;
