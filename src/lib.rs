//! Block-hit broadcasting for a block game client: interception of block
//! updates with paced replay, sound suppression around synthetic changes, and a
//! compact wire frame for sharing block hits between peers.

pub mod plugin;
