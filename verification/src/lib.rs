//! A verified playback core for video and animation players.
//!
//! The heart of the crate is the transport state machine
//! ([`movie_player::MoviePlayerStateController`]): it turns monotonic clock
//! ticks into a playback position and handles play/pause/stop/seek and
//! end-of-media policies. Around it sit the blanking policy (which image to
//! show while not actively playing) and a generic player that dispatches
//! frame fetches to a backend-supplied frame provider. Decoding itself is a
//! backend concern: callers implement the frame-provider traits and hand
//! plain bytes back.

pub mod blankable_image_data_provider;
pub mod movie;
pub mod movie_player;
pub mod pixel;
