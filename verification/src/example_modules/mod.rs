//! The decisions of the example PAM modules. Each hook of an example
//! alternates calls into PAM (the conversation, the handle's data, the user
//! lookup) with decisions; the functions here are those decisions, from what
//! PAM answered to the code the hook returns and the line it prints. The
//! calls into PAM themselves are made by whoever drives these functions.

pub mod data;
pub mod quiz;
pub mod username;
