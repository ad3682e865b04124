//! Native backend of a desktop chat application shell: chat-history and
//! active-query commands, an inference proxy that translates a user message
//! into an upstream request and an upstream response into a reply, and the
//! integer part of the host-metrics computation.

pub mod chat;
pub mod inference;
pub mod metrics;
pub mod textfmt;
