//! Building blocks for writing PAM modules: result codes, the checks that a
//! module entry point runs on what PAM hands it, the framing of conversation
//! messages, and an owned buffer for secrets that is wiped when dropped.

pub mod constants;
pub mod secret;
pub mod hooks;
pub mod conv;
pub mod text;
pub mod example_modules;
