//! The decoder interface: a complete message window is handed to the external
//! binary decoder, and the identifier that keys the entity table is read out
//! of the decoded frame.
//!
//! Decoding itself is an external capability; this module states what is
//! relied on — decoding is a pure function of the fourteen input bytes — and
//! builds the library's own message and error values around it.

use vstd::prelude::*;

use adsb_deku::deku::DekuContainerRead;

use crate::accumulator::{complete_spec, Accumulator};
use crate::table::Identifier;

verus! {

/// Declaration of `adsb_deku::Frame`, the decoded surveillance message. Its
/// inside is opaque here; it is carried through to the external tracker.
#[verifier::external_type_specification]
#[verifier::external_body]
pub struct ExFrame(adsb_deku::Frame);

/// Declaration of `adsb_deku::deku::DekuError`, the external decoder's error
/// type; opaque here, carried out for reporting.
#[verifier::external_type_specification]
#[verifier::external_body]
pub struct ExDekuError(adsb_deku::deku::DekuError);

/// Whether the external decoder accepts the byte sequence; decoding is a pure
/// function of the bytes.
pub uninterp spec fn decode_ok(bytes: Seq<u8>) -> bool;

/// The three identifier (address) bytes of the decoded frame, most
/// significant first, when the frame is of the extended-squitter kind that
/// carries one; a pure function of the bytes.
pub uninterp spec fn decoded_identifier(bytes: Seq<u8>) -> Option<(u8, u8, u8)>;

/// Relies on `adsb_deku::Frame::from_bytes`: parsing is a pure function of
/// the input bytes, it returns `Err` on input it does not accept rather than
/// panicking, and on success the extended-squitter variant carries the
/// transmitting entity's address bytes in its `icao` field.
#[verifier::external_body]
fn decode_frame(bytes: &Vec<u8>) -> (r: Result<
    (adsb_deku::Frame, Option<(u8, u8, u8)>),
    adsb_deku::deku::DekuError,
>)
    ensures
        r is Ok <==> decode_ok(bytes@),
        r matches Ok(p) ==> p.1 == decoded_identifier(bytes@),
{
    match adsb_deku::Frame::from_bytes((bytes.as_slice(), 0)) {
        Ok((_rest, frame)) => {
            let icao = match &frame.df {
                adsb_deku::DF::ADSB(a) => Some((a.icao.0[0], a.icao.0[1], a.icao.0[2])),
                _ => None,
            };
            Ok((frame, icao))
        },
        Err(e) => Err(e),
    }
}

/// A malformed or unsupported message window; carries the external decoder's
/// own error for diagnostic reporting. Recoverable: the caller discards the
/// window and resynchronizes on the next byte.
#[derive(Debug)]
pub struct DecodeError {
    pub cause: adsb_deku::deku::DekuError,
}

/// A successfully decoded message: the opaque decoded frame, to be handed on
/// to the external tracker, and the identifier extracted from it when the
/// message carries one.
pub struct Message {
    /// The decoded frame, for the external tracker.
    pub frame: adsb_deku::Frame,
    /// The 24-bit identifier of the transmitting entity, when present.
    pub identifier: Option<Identifier>,
}

/// The identifier value assembled from its three bytes, most significant
/// first.
pub open spec fn identifier_of_bytes(b: (u8, u8, u8)) -> Identifier {
    ((b.0 as u32) * 0x10000 + (b.1 as u32) * 0x100 + (b.2 as u32)) as u32
}

/// The identifier the decoder yields on these bytes, if the decoded message
/// carries one.
pub open spec fn message_identifier(bytes: Seq<u8>) -> Option<Identifier> {
    match decoded_identifier(bytes) {
        Some(b) => Some(identifier_of_bytes(b)),
        None => None,
    }
}

/// Decodes one complete message window. Succeeds exactly when the external
/// decoder accepts the bytes; the returned message carries the identifier
/// embedded in the window, when there is one.
pub fn decode(buffer: &Accumulator) -> (r: Result<Message, DecodeError>)
    requires
        complete_spec(buffer@),
    ensures
        r is Ok <==> decode_ok(buffer@),
        r matches Ok(m) ==> m.identifier == message_identifier(buffer@),
{
    match decode_frame(buffer.bytes()) {
        Ok((frame, icao)) => {
            let identifier = match icao {
                Some((b0, b1, b2)) => Some(
                    (b0 as u32) * 0x10000 + (b1 as u32) * 0x100 + (b2 as u32),
                ),
                None => None,
            };
            Ok(Message { frame, identifier })
        },
        Err(e) => Err(DecodeError { cause: e }),
    }
}

} // verus!
