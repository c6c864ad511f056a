//! Validated domain values built from untrusted strings.
//!
//! Two value types, each obtainable only through a fallible smart
//! constructor: [`email::Email`], a string that satisfies the e-mail
//! address grammar, and [`username::UserName`], a string that satisfies
//! length and character-set rules. A rejected string yields a typed,
//! matchable error describing the reason.

pub mod email;
pub mod username;
