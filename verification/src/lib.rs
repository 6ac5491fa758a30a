//! Composition engine of a phonetic input method: keystrokes are classified
//! into semantic actions, a transition table decides what a key does in the
//! current session state, and an executor drives the text buffer through a
//! conversion backend and the host's text surface.

pub mod engine;
pub mod tsf;
