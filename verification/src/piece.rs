//! The piece types and colors, their tags, and the packing of a piece into a
//! byte.

use vstd::prelude::*;

verus! {

/// Mask of the type field of a raw encoding: bits 0 to 2.
pub const TYPE_MASK: u8 = 0b0111;

/// Mask of the color field of a raw encoding: bit 3.
pub const COLOR_MASK: u8 = 0b1000;

/// Represents any type of chess piece. Color-agnostic.
#[derive(Clone, Copy, Debug, Hash, PartialEq, Eq, Structural)]
pub enum PieceType {
    Empty,
    Pawn,
    Knight,
    Bishop,
    Rook,
    Queen,
    King,
}

impl PieceType {
    /// The tag of this piece type: its bit pattern in the type field.
    pub open spec fn spec_tag(self) -> u8 {
        match self {
            PieceType::Empty => 0b0000,
            PieceType::Pawn => 0b0001,
            PieceType::Knight => 0b0010,
            PieceType::Bishop => 0b0011,
            PieceType::Rook => 0b0100,
            PieceType::Queen => 0b0101,
            PieceType::King => 0b0110,
        }
    }

    /// The piece type that `raw` is the tag of, if there is one.
    pub open spec fn spec_from_bits(raw: u8) -> Option<PieceType> {
        if raw == 0b0000 {
            Some(PieceType::Empty)
        } else if raw == 0b0001 {
            Some(PieceType::Pawn)
        } else if raw == 0b0010 {
            Some(PieceType::Knight)
        } else if raw == 0b0011 {
            Some(PieceType::Bishop)
        } else if raw == 0b0100 {
            Some(PieceType::Rook)
        } else if raw == 0b0101 {
            Some(PieceType::Queen)
        } else if raw == 0b0110 {
            Some(PieceType::King)
        } else {
            None
        }
    }

    /// Returns the tag of this piece type, a value from 0 to 6.
    #[verifier::when_used_as_spec(spec_tag)]
    pub fn tag(self) -> (raw: u8)
        ensures
            raw == self.spec_tag(),
            raw <= 0b0110,
    {
        match self {
            PieceType::Empty => 0b0000,
            PieceType::Pawn => 0b0001,
            PieceType::Knight => 0b0010,
            PieceType::Bishop => 0b0011,
            PieceType::Rook => 0b0100,
            PieceType::Queen => 0b0101,
            PieceType::King => 0b0110,
        }
    }

    /// Decodes a type field. Succeeds exactly on the values 0 to 6, with the
    /// piece type whose tag is `raw`. No bit of `raw` is masked off: a caller
    /// that holds a whole raw encoding clears bit 3 first.
    #[verifier::when_used_as_spec(spec_from_bits)]
    pub fn from_bits(raw: u8) -> (decoded: Option<PieceType>)
        ensures
            decoded == PieceType::spec_from_bits(raw),
            decoded is Some <==> raw <= 0b0110,
            decoded matches Some(t) ==> t.tag() == raw,
    {
        match raw {
            0b0000 => Some(PieceType::Empty),
            0b0001 => Some(PieceType::Pawn),
            0b0010 => Some(PieceType::Knight),
            0b0011 => Some(PieceType::Bishop),
            0b0100 => Some(PieceType::Rook),
            0b0101 => Some(PieceType::Queen),
            0b0110 => Some(PieceType::King),
            _ => None,
        }
    }
}

/// The color of a chess piece.
#[derive(Clone, Copy, Debug, Hash, PartialEq, Eq, Structural)]
pub enum PieceColor {
    White,
    Black,
}

impl PieceColor {
    /// The tag of this color: its bit pattern in the color field.
    pub open spec fn spec_tag(self) -> u8 {
        match self {
            PieceColor::White => 0b0000,
            PieceColor::Black => 0b1000,
        }
    }

    /// The color that `raw` is the tag of, if there is one.
    pub open spec fn spec_from_bits(raw: u8) -> Option<PieceColor> {
        if raw == 0b1000 {
            Some(PieceColor::Black)
        } else if raw == 0b0000 {
            Some(PieceColor::White)
        } else {
            None
        }
    }

    /// Returns the tag of this color: 0 for white, 8 for black.
    #[verifier::when_used_as_spec(spec_tag)]
    pub fn tag(self) -> (raw: u8)
        ensures
            raw == self.spec_tag(),
            raw == 0b0000 || raw == 0b1000,
    {
        match self {
            PieceColor::White => 0b0000,
            PieceColor::Black => 0b1000,
        }
    }

    /// Decodes a color field. Succeeds exactly on 0, with white, and on 8,
    /// with black. No bit of `raw` is masked off: a caller that holds a whole
    /// raw encoding clears every bit but bit 3 first.
    #[verifier::when_used_as_spec(spec_from_bits)]
    pub fn from_bits(raw: u8) -> (decoded: Option<PieceColor>)
        ensures
            decoded == PieceColor::spec_from_bits(raw),
            decoded is Some <==> raw == 0b0000 || raw == 0b1000,
            decoded matches Some(c) ==> c.tag() == raw,
    {
        match raw {
            0b1000 => Some(PieceColor::Black),
            0b0000 => Some(PieceColor::White),
            _ => None,
        }
    }
}

/// The failure of decoding a raw encoding whose type field is the tag of no
/// piece type.
#[derive(Clone, Copy, Debug, Hash, PartialEq, Eq, Structural)]
pub struct InvalidEncoding {
    /// The byte that was refused.
    pub raw: u8,
}

/// A given piece. Contains color information as well as type.
#[derive(Clone, Copy, Debug, Hash, PartialEq, Eq, Structural)]
pub struct Piece {
    pub piece_type: PieceType,
    pub piece_color: PieceColor,
}

impl Piece {
    /// The piece of the given type and color.
    pub open spec fn spec_new(piece_type: PieceType, piece_color: PieceColor) -> Piece {
        Piece { piece_type, piece_color }
    }

    /// The raw encoding of this piece: the bitwise OR of its two tags.
    pub open spec fn spec_to_raw(&self) -> u8 {
        self.piece_color.tag() | self.piece_type.tag()
    }

    /// Whether `raw` decodes to a piece: whether its type field is the tag of
    /// a piece type. Bits 4 to 7 play no part.
    pub open spec fn decodable(raw: u8) -> bool {
        raw & TYPE_MASK != 0b0111
    }

    /// The piece that a decodable `raw` encodes: each field decoded on its
    /// own.
    pub open spec fn spec_from_raw(raw: u8) -> Piece
        recommends
            Piece::decodable(raw),
    {
        Piece {
            piece_type: PieceType::from_bits(raw & TYPE_MASK).unwrap(),
            piece_color: PieceColor::from_bits(raw & COLOR_MASK).unwrap(),
        }
    }

    /// What decoding `raw` gives: the piece, or the refusal of `raw`.
    pub open spec fn spec_try_from_raw(raw: u8) -> Result<Piece, InvalidEncoding> {
        if Piece::decodable(raw) {
            Ok(Piece::from_raw(raw))
        } else {
            Err(InvalidEncoding { raw })
        }
    }

    /// Composes a piece from its type and color.
    #[verifier::when_used_as_spec(spec_new)]
    pub fn new(piece_type: PieceType, piece_color: PieceColor) -> (piece: Piece)
        ensures
            piece == Piece::spec_new(piece_type, piece_color),
            piece.piece_type == piece_type,
            piece.piece_color == piece_color,
    {
        Self { piece_type, piece_color }
    }

    /// Pieces are represented in the format CTTT where C is the color bit and
    /// T are type bits. The two tags share no bit, so their OR is their sum.
    #[verifier::when_used_as_spec(spec_to_raw)]
    pub fn to_raw(&self) -> (raw: u8)
        ensures
            raw == self.spec_to_raw(),
            raw == self.piece_color.tag() + self.piece_type.tag(),
            raw & COLOR_MASK == self.piece_color.tag(),
            raw & TYPE_MASK == self.piece_type.tag(),
    {
        let color: u8 = self.piece_color.tag();
        let kind: u8 = self.piece_type.tag();
        assert({
            &&& color | kind == color + kind
            &&& (color | kind) & 0b1000 == color
            &&& (color | kind) & 0b0111 == kind
        }) by (bit_vector)
            requires
                color == 0b0000 || color == 0b1000,
                kind <= 0b0110,
        ;
        color | kind
    }

    /// Pieces are represented in the format CTTT where C is the color bit and
    /// T are the type bits. Bits 4 to 7 of `raw` are ignored. A type field of
    /// `0b0111` encodes no piece, and such a `raw` is not accepted here:
    /// [`Piece::try_from_raw`] takes every byte.
    #[verifier::when_used_as_spec(spec_from_raw)]
    pub fn from_raw(raw: u8) -> (piece: Piece)
        requires
            Piece::decodable(raw),
        ensures
            piece == Piece::spec_from_raw(raw),
            piece.piece_color.tag() == raw & COLOR_MASK,
            piece.piece_type.tag() == raw & TYPE_MASK,
    {
        assert(raw & 0b1000 == 0b0000 || raw & 0b1000 == 0b1000) by (bit_vector);
        assert(raw & 0b0111 <= 0b0111) by (bit_vector);
        let piece_color = PieceColor::from_bits(raw & COLOR_MASK).expect(
            "Failed to create piece color from raw",
        );
        let piece_type = PieceType::from_bits(raw & TYPE_MASK).expect(
            "Failed to create piece type from raw",
        );
        Self { piece_type, piece_color }
    }

    /// Decodes any byte: the piece of [`Piece::from_raw`] where the type
    /// field is a tag, and the refusal of `raw` where it is `0b0111`.
    #[verifier::when_used_as_spec(spec_try_from_raw)]
    pub fn try_from_raw(raw: u8) -> (decoded: Result<Piece, InvalidEncoding>)
        ensures
            decoded == Piece::spec_try_from_raw(raw),
            decoded is Ok <==> Piece::decodable(raw),
            decoded matches Ok(piece) ==> piece == Piece::from_raw(raw),
            decoded matches Ok(piece) ==> piece.piece_color.tag() == raw & COLOR_MASK,
            decoded matches Ok(piece) ==> piece.piece_type.tag() == raw & TYPE_MASK,
            decoded matches Err(refusal) ==> refusal.raw == raw,
    {
        if raw & TYPE_MASK == 0b0111 {
            Err(InvalidEncoding { raw })
        } else {
            Ok(Piece::from_raw(raw))
        }
    }
}

} // verus!
