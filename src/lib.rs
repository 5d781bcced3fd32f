//! Per-guild playback queues for a voice-streaming chat bot.
//!
//! - `queue`: the state machine of one guild's queue (enqueue, advance on
//!   track completion) and the metadata carried by each entry.
//! - `laws`: what holds of any run of queue operations, proved over the
//!   queue's model.
//! - `registry`: guild identifiers mapped to independently lockable states.
//! - `source`: whether a play request is a link or search terms.
//! - `moderation`: role membership for the role-granting command.
//! - `embeds`: the coloured replies shown to users.

pub mod queue;
pub mod source;
pub mod laws;
pub mod registry;
pub mod moderation;
pub mod embeds;
