//! A chess piece packed into four bits of a byte.
//!
//! A [`Piece`] pairs a [`PieceType`] with a [`PieceColor`]. Its raw encoding
//! has the layout `C T T T`: bit 3 holds the color, bits 0 to 2 hold the type.
//! Encoding is total; decoding fails on exactly one type field, `0b0111`,
//! which is the tag of no piece type.

pub mod piece;
pub mod laws;

pub use piece::{InvalidEncoding, Piece, PieceColor, PieceType, COLOR_MASK, TYPE_MASK};
