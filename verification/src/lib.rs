//! Decoding of what the board's receivers send over their UARTs: the frames
//! of a DBUS remote-control receiver (stick channels, the two
//! three-position switches, the mouse and the keyboard bit mask) and the
//! NMEA sentences of a GPS receiver.

pub mod gps;
pub mod rc;
mod bits;
pub mod laws;
