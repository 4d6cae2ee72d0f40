//! Core logic of a duplex text-to-speech streaming bridge: the text
//! chunking policy for the outbound half, the wire codec for the
//! messages exchanged with the synthesis service, the inbound frame
//! decoder and playback record for the inbound half, and the state
//! machine that a single synthesis turn follows.

pub mod chunk;
pub mod errors;
pub mod frames;
pub mod playback;
pub mod turn;
pub mod wire;
