//! The protocol engine of an OpenHPSDR Protocol 2 software-defined radio link:
//! the packet codec, the stream demultiplexer, the receiver and transmitter
//! sample buffers, the sequence counters, and the engine that decides, for
//! each inbound datagram and at each loop iteration, what is sent and what is
//! asked of the DSP engine and the sound devices. The CAT and MIDI command
//! decoders of the remote-control side live here too.

pub mod bytes;
pub mod phase;
pub mod alex;
pub mod fill;
pub mod discovery;
pub mod receiver;
pub mod transmitter;
pub mod radio;
pub mod packets;
pub mod sequence;
pub mod demux;
pub mod engine;
pub mod cat;
pub mod midi;
