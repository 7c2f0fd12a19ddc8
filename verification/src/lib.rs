//! A desktop playback shell, modelled and verified.
//!
//! The library holds the decision logic of a small GUI application: a
//! pipeline-construction state machine for two fixed video topologies (and an
//! audio variant), a FIFO notification queue fed by a UDP listener, and the
//! shell state that maps clicks and polled messages to label text and
//! spawn actions. The windowing toolkit, the media framework and the socket
//! live outside the library and are driven from its contracts.

pub mod bridge;
pub mod playback;
pub mod shell;
