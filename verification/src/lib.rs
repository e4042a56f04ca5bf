//! A typed catalog of cards, built from a card-definition document.
//!
//! The document describes each card by an identifier, a database number,
//! tags, referenced tags, powers with their play requirements, and an
//! entourage. Tags and play requirements are written as integer codes. The
//! library turns the records of a document into cards whose tags and
//! requirements are symbols of two closed tables, and the cards into a
//! catalog under their identifiers.
//!
//! - [`enums`]: the two tables, from code to symbol and back.
//! - [`raw`]: the records of a document, as they are written.
//! - [`integrity`]: finding a code that the tables do not know.
//! - [`cardxml`]: cards, and building them and the catalog.
//! - [`assoc`]: the map that cards and the catalog keep their entries in.
//! - [`decimal`]: reading a requirement's parameter as a number.
//!
//! Reading the document from its bytes is left to the caller.

pub mod assoc;
pub mod cardxml;
pub mod decimal;
pub mod enums;
pub mod integrity;
pub mod raw;
