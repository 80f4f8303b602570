//! The logic of a USB admin key and of the host tool that types text on it.
//!
//! Host side: checking and mapping the text to type (`validation`,
//! `sanitizer`), finding the key among the serial ports (`probe`,
//! `handshake`), reporting (`notification`, `clipboard`).
//! Key side: answering the host (`handshake`), turning bytes into keyboard
//! reports (`keyboard`) and keeping entries in flash (`flash`).

pub mod clipboard;
pub mod flash;
pub mod handshake;
pub mod keyboard;
pub mod notification;
pub mod probe;
pub mod sanitizer;
pub mod text;
pub mod validation;
