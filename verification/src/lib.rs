//! Resolving a repository reference to a location, and picking the language
//! tag under which a repository is filed.

pub mod address;
pub mod reference;
pub mod location;
pub mod language;
pub mod filing;
