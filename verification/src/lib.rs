//! Network Audio Bridge: the wire formats, stream bookkeeping, setup wizards and
//! configuration rules of a UDP / LiveKit audio bridge, with their contracts.
pub mod le;
pub mod packet;
pub mod stream;
pub mod playout;
pub mod wizard;
pub mod live;
pub mod tap;
pub mod text;
pub mod status;
pub mod status_lines;
pub mod log;
pub mod control;
pub mod bridge;
pub mod receiver;
pub mod listeners;
pub mod devices;
