//! One whole run: the arguments are checked, then the input is converted.

use crate::cli::Args;
use crate::error::Error;
use crate::transcode::{json_to_mp, json_to_mp_outcome, mp_to_json, mp_to_json_outcome, Outcome};
use vstd::prelude::*;

verus! {

/// What a run with valid arguments comes to: a conversion to JSON where
/// that direction is settled, else one to MessagePack; the hexadecimal form
/// of the MessagePack side as the arguments ask.
pub open spec fn run_outcome(args: Args, input: Seq<u8>) -> Outcome {
    if args.resolved().to_json {
        mp_to_json_outcome(input, args.hex)
    } else {
        json_to_mp_outcome(input, args.hex)
    }
}

/// Runs the tool on `args`, with `input` as what the input source holds and
/// `output` as what is written.
///
/// Arguments that are not valid are refused as [`Args::validate_update`]
/// refuses them, and nothing is converted. Valid arguments are settled, and
/// the input is converted in the settled direction: a fault of the conversion
/// is returned as [`mp_to_json`] or [`json_to_mp`] returns it.
pub fn main_runner(args: &mut Args, input: &[u8], output: &mut Vec<u8>) -> (r: Result<(), Error>)
    ensures
        old(args).valid() ==> *final(args) == old(args).resolved(),
        !old(args).valid() ==> *final(args) == *old(args) && final(output)@ == old(output)@ && r is Err,
        old(args).direction_conflict() ==> (r matches Err(Error::ArgConflict(a, b)) && a@
            == "--to-json"@ && b@ == "--to-msgpack"@),
        !old(args).direction_conflict() && old(args).input_conflict() ==> (r matches Err(
            Error::ArgConflict(a, b),
        ) && a@ == "INPUT_FILE"@ && b@ == "--text"@),
        !old(args).direction_conflict() && !old(args).input_conflict() && !old(args).valid()
            ==> r == Err::<(), Error>(Error::NoDirection),
        old(args).valid() ==> match run_outcome(*old(args), input@) {
            Outcome::Done(bytes) => r is Ok && final(output)@ == old(output)@ + bytes,
            Outcome::BadHex(e) => r == Err::<(), Error>(Error::Hex(e)) && final(output)@ == old(
                output,
            )@,
            Outcome::Failed(written, message) => final(output)@ == old(output)@ + written && (
            if old(args).resolved().to_json {
                r matches Err(Error::MessagePak(m)) && m@ == message
            } else {
                r matches Err(Error::Json(m)) && m@ == message
            }),
        },
{
    match args.validate_update() {
        Ok(()) => {},
        Err(e) => {
            return Err(e);
        },
    }
    if args.to_json {
        mp_to_json(input, output, args.hex)
    } else {
        json_to_mp(input, output, args.hex)
    }
}

} // verus!
