//! Topology model and protocol engine of a software KVM switch: several
//! machines joined into one virtual desktop, with the mouse and keyboard
//! handed from screen to screen as the cursor crosses their edges.
pub mod screen;
pub mod message;
pub mod cluster;
pub mod hub;
pub mod pointer;
