//! Conversion of one document between MessagePack and JSON.
//!
//! The input is a buffer that holds what was read; the output is appended to
//! a buffer that stands for the stream written to. A conversion that fails
//! is reported under the format of its input. What a conversion to JSON has
//! written when it fails stays written; a conversion to MessagePack that
//! fails writes nothing.
//!
//! Both codecs bound how deep a value may be nested, to keep their own stack
//! in bounds: 1024 levels of MessagePack, 128 of JSON. A value beyond the
//! limit is refused as one that cannot be converted, never cut short.

use crate::error::Error;
use crate::hexwrap::{
    decoded, hex_text, lemma_hex_line_round_trip, unwrap_hex, without_whitespace, write_hex_line,
    HexError,
};
use vstd::prelude::*;

verus! {

/// What a conversion of some input comes to.
pub enum Outcome {
    /// It succeeds, and writes this.
    Done(Seq<u8>),
    /// The input was to be hexadecimal text and is not: nothing is written.
    BadHex(HexError),
    /// It fails after it has written the first, with the second as the
    /// codec's message.
    Failed(Seq<u8>, Seq<char>),
}

/// What converting the first MessagePack value of `input` to JSON comes to:
/// `Ok` with the whole JSON text where the conversion succeeds; `Err` where
/// it fails, with what was written before the fault and the message of the
/// fault.
pub uninterp spec fn json_of_msgpack(input: Seq<u8>) -> Result<Seq<u8>, (Seq<u8>, Seq<char>)>;

/// What converting the first JSON value of `input` to MessagePack comes to:
/// `Ok` with the whole encoding where the conversion succeeds; `Err` with
/// the message of the fault where it fails.
pub uninterp spec fn msgpack_of_json(input: Seq<u8>) -> Result<Seq<u8>, Seq<char>>;

/// `serde_transcode::transcode` from an `rmp_serde::Deserializer` that reads
/// `input` to a `serde_json::Serializer` that writes compact JSON to
/// `output`; a fault is returned as the message it displays.
///
/// Trusted: the call only appends to `output`, and what it appends, whether
/// it succeeds and the message of its fault depend on `input` alone. They are
/// named `json_of_msgpack(input@)`. Nothing is claimed of what they are.
/// The decoder refuses a value nested deeper than its limit of 1024.
#[verifier::external_body]
pub(crate) fn transcode_msgpack_to_json(input: &[u8], output: &mut Vec<u8>) -> (r: Result<
    (),
    String,
>)
    ensures
        match r {
            Ok(_) => json_of_msgpack(input@) is Ok && final(output)@ == old(output)@
                + json_of_msgpack(input@)->Ok_0,
            Err(message) => json_of_msgpack(input@) is Err && final(output)@ == old(output)@
                + json_of_msgpack(input@)->Err_0.0 && message@ == json_of_msgpack(
                input@,
            )->Err_0.1,
        },
{
    let mut deserializer = rmp_serde::Deserializer::new(input);
    let mut serializer = serde_json::Serializer::new(output);
    match serde_transcode::transcode(&mut deserializer, &mut serializer) {
        Ok(()) => Ok(()),
        Err(e) => Err(format!("{}", e)),
    }
}

/// `serde_transcode::transcode` from a `serde_json::Deserializer` that reads
/// `input` to an `rmp_serde::Serializer` that writes to `output`; a fault is
/// returned as the message it displays.
///
/// Trusted: the call only appends to `output`, and what it appends, whether
/// it succeeds and the message of its fault depend on `input` alone. They are
/// named `msgpack_of_json(input@)`. Nothing is claimed of what they are.
/// A call that fails appends nothing: the decoder tells no length of an
/// array or object, and the encoder holds every sequence or map of unknown
/// length back until its end, so that nothing reaches `output` before the
/// whole value is read. The decoder refuses a value nested deeper than its
/// limit of 128.
#[verifier::external_body]
pub(crate) fn transcode_json_to_msgpack(input: &[u8], output: &mut Vec<u8>) -> (r: Result<
    (),
    String,
>)
    ensures
        match r {
            Ok(_) => msgpack_of_json(input@) is Ok && final(output)@ == old(output)@
                + msgpack_of_json(input@)->Ok_0,
            Err(message) => msgpack_of_json(input@) is Err && final(output)@ == old(output)@
                && message@ == msgpack_of_json(input@)->Err_0,
        },
{
    let mut deserializer = serde_json::Deserializer::from_reader(input);
    let mut serializer = rmp_serde::Serializer::new(output);
    match serde_transcode::transcode(&mut deserializer, &mut serializer) {
        Ok(()) => Ok(()),
        Err(e) => Err(format!("{}", e)),
    }
}

/// What converting the MessagePack value `packed` to a line of JSON comes to.
pub open spec fn json_line(packed: Seq<u8>) -> Outcome {
    match json_of_msgpack(packed) {
        Ok(text) => Outcome::Done(text.push(0x0a)),
        Err(fault) => Outcome::Failed(fault.0, fault.1),
    }
}

/// What [`mp_to_json`] comes to. With `read_hex` the input is hexadecimal
/// text, which is decoded first; a text that is not is refused before
/// anything is converted.
pub open spec fn mp_to_json_outcome(input: Seq<u8>, read_hex: bool) -> Outcome {
    if read_hex {
        match decoded(without_whitespace(input)) {
            Ok(packed) => json_line(packed),
            Err(e) => Outcome::BadHex(e),
        }
    } else {
        json_line(input)
    }
}

/// What [`json_to_mp`] comes to. Without `write_hex` the encoding goes out
/// as it is; with it, as one line of hexadecimal text. Of a conversion that
/// fails nothing goes out.
pub open spec fn json_to_mp_outcome(input: Seq<u8>, write_hex: bool) -> Outcome {
    match msgpack_of_json(input) {
        Ok(packed) => Outcome::Done(
            if write_hex {
                hex_text(packed).push(0x0a)
            } else {
                packed
            },
        ),
        Err(message) => Outcome::Failed(Seq::empty(), message),
    }
}

/// Ends a conversion to JSON: after a success the line is closed; a fault
/// means that the MessagePack input could not be converted, and becomes
/// [`Error::MessagePak`] with the codec's message.
pub fn finish_json(transcoded: Result<(), String>, output: &mut Vec<u8>) -> (r: Result<(), Error>)
    ensures
        match transcoded {
            Ok(_) => r is Ok && final(output)@ == old(output)@.push(0x0a),
            Err(message) => r == Err::<(), Error>(Error::MessagePak(message)) && final(output)@
                == old(output)@,
        },
{
    match transcoded {
        Ok(()) => {
            output.push(0x0a);
            Ok(())
        },
        Err(message) => Err(Error::MessagePak(message)),
    }
}

/// Ends a conversion to MessagePack that was kept back in `packed`: after a
/// success it goes out as one line of hexadecimal text; a fault means that
/// the JSON input could not be converted, and becomes [`Error::Json`] with
/// the codec's message, and nothing goes out.
pub fn finish_hex(transcoded: Result<(), String>, packed: &[u8], output: &mut Vec<u8>) -> (r:
    Result<(), Error>)
    ensures
        match transcoded {
            Ok(_) => r is Ok && final(output)@ == old(output)@ + hex_text(packed@).push(0x0a),
            Err(message) => r == Err::<(), Error>(Error::Json(message)) && final(output)@ == old(
                output,
            )@,
        },
{
    match transcoded {
        Ok(()) => {
            write_hex_line(packed, output);
            Ok(())
        },
        Err(message) => Err(Error::Json(message)),
    }
}

/// Converts the MessagePack value at the start of `input` to a line of
/// compact JSON, appended to `output`. With `read_hex`, `input` is
/// hexadecimal text of the value, in which white space does not count.
///
/// What follows the first value in `input` is not looked at. A fault of the
/// text is an [`Error::Hex`] and leaves `output` as it was. A value that
/// cannot be converted (an unknown tag, a length that reaches past the end,
/// nesting left open, or nesting beyond the codec's limit of 1024) is an
/// [`Error::MessagePak`] and leaves in `output` what had been written by
/// then.
pub fn mp_to_json(input: &[u8], output: &mut Vec<u8>, read_hex: bool) -> (r: Result<(), Error>)
    ensures
        match mp_to_json_outcome(input@, read_hex) {
            Outcome::Done(text) => r is Ok && final(output)@ == old(output)@ + text,
            Outcome::BadHex(e) => r == Err::<(), Error>(Error::Hex(e)) && final(output)@ == old(
                output,
            )@,
            Outcome::Failed(written, message) => (r matches Err(Error::MessagePak(m)) && m@
                == message) && final(output)@ == old(output)@ + written,
        },
{
    if read_hex {
        match unwrap_hex(input) {
            Ok(packed) => {
                let transcoded = transcode_msgpack_to_json(packed.as_slice(), output);
                finish_json(transcoded, output)
            },
            Err(e) => Err(Error::Hex(e)),
        }
    } else {
        let transcoded = transcode_msgpack_to_json(input, output);
        finish_json(transcoded, output)
    }
}

/// Converts the JSON value at the start of `input` to MessagePack, appended
/// to `output`: as it is, or with `write_hex` as one line of hexadecimal
/// text.
///
/// What follows the first value in `input` is not looked at. A text that
/// cannot be converted (a fault of the syntax, a value left open, or nesting
/// beyond the codec's limit of 128) is an [`Error::Json`], and leaves
/// `output` as it was.
pub fn json_to_mp(input: &[u8], output: &mut Vec<u8>, write_hex: bool) -> (r: Result<(), Error>)
    ensures
        match json_to_mp_outcome(input@, write_hex) {
            Outcome::Done(bytes) => r is Ok && final(output)@ == old(output)@ + bytes,
            Outcome::BadHex(_) => false,
            Outcome::Failed(_, message) => r matches Err(Error::Json(m)) && m@ == message,
        },
        r is Err ==> final(output)@ == old(output)@,
{
    if write_hex {
        let mut packed: Vec<u8> = Vec::new();
        let transcoded = transcode_json_to_msgpack(input, &mut packed);
        proof {
            assert(Seq::<u8>::empty() + msgpack_of_json(input@)->Ok_0 =~= msgpack_of_json(
                input@,
            )->Ok_0);
        }
        finish_hex(transcoded, packed.as_slice(), output)
    } else {
        match transcode_json_to_msgpack(input, output) {
            Ok(()) => Ok(()),
            Err(message) => Err(Error::Json(message)),
        }
    }
}

/// Hexadecimal text is transparent: the line that a conversion to
/// MessagePack writes with `write_hex` is converted back, with `read_hex`,
/// exactly as the encoding itself is converted without.
pub proof fn lemma_hex_is_transparent(packed: Seq<u8>)
    ensures
        mp_to_json_outcome(hex_text(packed).push(0x0a), true) == mp_to_json_outcome(packed, false),
{
    lemma_hex_line_round_trip(packed);
}

/// The two forms of a conversion to MessagePack agree: it succeeds with
/// `write_hex` exactly when it succeeds without, and the line written with
/// it decodes to the bytes written without.
pub proof fn lemma_hex_output_decodes(input: Seq<u8>)
    ensures
        json_to_mp_outcome(input, true) is Done == json_to_mp_outcome(input, false) is Done,
        json_to_mp_outcome(input, false) matches Outcome::Done(packed) ==> (json_to_mp_outcome(
            input,
            true,
        ) matches Outcome::Done(line) && decoded(without_whitespace(line)) == Ok::<
            Seq<u8>,
            HexError,
        >(packed)),
{
    if let Ok(packed) = msgpack_of_json(input) {
        lemma_hex_line_round_trip(packed);
    }
}

} // verus!
