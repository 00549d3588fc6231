//! What holds of the encoding as a whole: that encoding and decoding undo
//! each other, which bytes encode a piece, and that the two fields of an
//! encoding do not touch each other.

use crate::piece::{InvalidEncoding, Piece, PieceColor, PieceType, COLOR_MASK, TYPE_MASK};
use vstd::prelude::*;

verus! {

/// The two fields of a byte in arithmetic: the type field is the byte modulo
/// 8, and the color field is 8 or 0 as the byte divided by 8 is odd or even.
/// So a byte is decodable exactly when it is not 7 modulo 8.
pub proof fn lemma_fields_as_arithmetic(raw: u8)
    ensures
        raw & TYPE_MASK == raw % 8,
        raw & COLOR_MASK == 8 * ((raw / 8) % 2),
        Piece::decodable(raw) <==> raw % 8 != 7,
{
    assert(raw & 0b0111 == raw % 8) by (bit_vector);
    assert(raw & 0b1000 == 8 * ((raw / 8) % 2)) by (bit_vector);
}

/// A piece type is decoded from its own tag and from no other byte.
pub proof fn lemma_type_tag_inverse(piece_type: PieceType, raw: u8)
    ensures
        PieceType::from_bits(piece_type.tag()) == Some(piece_type),
        PieceType::from_bits(raw) == Some(piece_type) <==> raw == piece_type.tag(),
{
}

/// A color is decoded from its own tag and from no other byte.
pub proof fn lemma_color_tag_inverse(piece_color: PieceColor, raw: u8)
    ensures
        PieceColor::from_bits(piece_color.tag()) == Some(piece_color),
        PieceColor::from_bits(raw) == Some(piece_color) <==> raw == piece_color.tag(),
{
}

/// The fields of an encoding are the two tags it was made of, and the
/// encoding is their sum.
pub proof fn lemma_fields_of_encoding(piece: Piece)
    ensures
        piece.to_raw() & COLOR_MASK == piece.piece_color.tag(),
        piece.to_raw() & TYPE_MASK == piece.piece_type.tag(),
        piece.to_raw() == piece.piece_color.tag() + piece.piece_type.tag(),
        piece.to_raw() < 16,
{
    let color: u8 = piece.piece_color.tag();
    let kind: u8 = piece.piece_type.tag();
    assert({
        &&& (color | kind) & 0b1000 == color
        &&& (color | kind) & 0b0111 == kind
        &&& color | kind == color + kind
    }) by (bit_vector)
        requires
            color == 0b0000 || color == 0b1000,
            kind <= 0b0110,
    ;
}

/// Encoding a piece and decoding the result gives the piece back, for each
/// of the fourteen pieces.
pub proof fn lemma_decode_encode(piece: Piece)
    ensures
        Piece::decodable(piece.to_raw()),
        Piece::from_raw(piece.to_raw()) == piece,
        Piece::try_from_raw(piece.to_raw()) == Ok::<Piece, InvalidEncoding>(piece),
{
    lemma_fields_of_encoding(piece);
}

/// Whether `raw` is the encoding of some piece.
pub open spec fn is_encoding(raw: u8) -> bool {
    exists|piece: Piece| piece.to_raw() == raw
}

/// The bytes that encode a piece.
pub open spec fn encodings() -> Set<u8> {
    Set::new(|raw: u8| is_encoding(raw))
}

/// Decoding a decodable byte and encoding the result gives the low four bits
/// of the byte back: bits 4 to 7 are dropped, and a byte decodes as its low
/// four bits do.
pub proof fn lemma_encode_decode_low_bits(raw: u8)
    requires
        Piece::decodable(raw),
    ensures
        Piece::from_raw(raw).to_raw() == raw & 0b1111,
        Piece::decodable(raw & 0b1111),
        Piece::from_raw(raw & 0b1111) == Piece::from_raw(raw),
{
    let low: u8 = raw & 0b1111;
    assert({
        &&& low & 0b0111 == raw & 0b0111
        &&& low & 0b1000 == raw & 0b1000
        &&& raw & 0b0111 <= 0b0111
        &&& (raw & 0b1000 == 0b0000 || raw & 0b1000 == 0b1000)
        &&& (raw & 0b1000) | (raw & 0b0111) == low
    }) by (bit_vector)
        requires
            low == raw & 0b1111,
    ;
}

/// Decoding a byte that encodes a piece and encoding the result gives the
/// byte back.
pub proof fn lemma_encode_decode(raw: u8)
    requires
        is_encoding(raw),
    ensures
        Piece::decodable(raw),
        Piece::from_raw(raw).to_raw() == raw,
{
    let piece = choose|piece: Piece| piece.to_raw() == raw;
    lemma_decode_encode(piece);
}

/// A byte encodes a piece exactly when it is below 16 and decodable.
pub proof fn lemma_is_encoding(raw: u8)
    ensures
        is_encoding(raw) <==> raw < 16 && Piece::decodable(raw),
{
    if is_encoding(raw) {
        let piece = choose|piece: Piece| piece.to_raw() == raw;
        lemma_decode_encode(piece);
        lemma_fields_of_encoding(piece);
    }
    if raw < 16 && Piece::decodable(raw) {
        lemma_encode_decode_low_bits(raw);
        assert(raw & 0b1111 == raw) by (bit_vector)
            requires
                raw < 16,
        ;
        assert(Piece::from_raw(raw).to_raw() == raw);
    }
}

/// Of the bytes below 16, decoding refuses 7 and 15 and no other.
pub proof fn lemma_refused_below_16(raw: u8)
    requires
        raw < 16,
    ensures
        !Piece::decodable(raw) <==> raw == 0b0111 || raw == 0b1111,
        Piece::try_from_raw(raw) is Err <==> raw == 0b0111 || raw == 0b1111,
{
    assert(raw & 0b0111 == 0b0111 <==> raw == 0b0111 || raw == 0b1111) by (bit_vector)
        requires
            raw < 16,
    ;
}

/// Exactly fourteen bytes encode a piece: 0 to 6 for the white pieces and 8
/// to 14 for the black ones.
pub proof fn lemma_encodings()
    ensures
        encodings() == set![
            0u8, 1u8, 2u8, 3u8, 4u8, 5u8, 6u8,
            8u8, 9u8, 10u8, 11u8, 12u8, 13u8, 14u8,
        ],
        encodings().finite(),
        encodings().len() == 14,
{
    let listed = set![
        0u8, 1u8, 2u8, 3u8, 4u8, 5u8, 6u8,
        8u8, 9u8, 10u8, 11u8, 12u8, 13u8, 14u8,
    ];
    assert forall|raw: u8| encodings().contains(raw) <==> listed.contains(raw) by {
        lemma_is_encoding(raw);
        lemma_fields_as_arithmetic(raw);
    }
    assert(encodings() =~= listed);
}

/// The encodings of the white and the black piece of one type differ in bit 3
/// and in no other bit: setting bit 3 in the white one gives the black one.
pub proof fn lemma_color_bit_isolation(piece_type: PieceType)
    ensures
        Piece::new(piece_type, PieceColor::White).to_raw() | COLOR_MASK == Piece::new(
            piece_type,
            PieceColor::Black,
        ).to_raw(),
        Piece::new(piece_type, PieceColor::White).to_raw() ^ Piece::new(
            piece_type,
            PieceColor::Black,
        ).to_raw() == COLOR_MASK,
{
    let kind: u8 = piece_type.tag();
    assert({
        &&& (0b0000u8 | kind) | 0b1000 == 0b1000u8 | kind
        &&& (0b0000u8 | kind) ^ (0b1000u8 | kind) == 0b1000
    }) by (bit_vector)
        requires
            kind <= 0b0110,
    ;
}

/// The type field of an encoding decodes to the piece's type, whatever the
/// piece's color.
pub proof fn lemma_type_independent_of_color(piece: Piece)
    ensures
        PieceType::from_bits(piece.to_raw() & TYPE_MASK) == Some(piece.piece_type),
{
    lemma_fields_of_encoding(piece);
}

} // verus!
