//! A verified core for a small clothing-catalog search client.
//!
//! The library parses a JSON catalog of clothing items, decides how a
//! line of user input is handled, renders search hits for display, and
//! drives the session as a state machine; all console and network work
//! is left to the surrounding binary.

pub mod input;
pub mod catalog;
pub mod config;
pub mod records;
pub mod render;
pub mod session;

pub use catalog::parse_catalog;
pub use catalog::ParseError;
pub use input::is_quit;
pub use input::trim_line;
pub use records::Clothes;
pub use records::ClothesDisplay;
pub use session::step;
pub use session::Phase;
pub use session::Event;
pub use session::Action;
pub use session::AbortKind;
