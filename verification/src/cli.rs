//! The arguments of a run and the rules that hold between them.

use crate::error::Error;
use crate::filetype::{format_of_name, FType};
use vstd::prelude::*;

verus! {

/// The arguments of one run, as they were given.
#[derive(Debug, Clone, PartialEq, Eq, Default)]
pub struct Args {
    /// Report what is being done.
    pub verbose: bool,
    /// Convert MessagePack to JSON.
    pub to_json: bool,
    /// Convert JSON to MessagePack.
    pub to_msgpack: bool,
    /// The file to read, where the input is a file.
    pub input_file: Option<String>,
    /// The input itself, where it was given as an argument.
    pub input: Option<String>,
    /// The file to write, where the output is a file.
    pub output_file: Option<String>,
    /// The MessagePack side is hexadecimal text.
    pub hex: bool,
}

/// Where the input of a run comes from.
#[derive(Debug, Clone, PartialEq, Eq)]
pub enum InputSource {
    /// The file of this name.
    File(String),
    /// This text, given among the arguments.
    Text(String),
    /// The standard input.
    Stdin,
}

/// Where the output of a run goes.
#[derive(Debug, Clone, PartialEq, Eq)]
pub enum OutputSink {
    /// The file of this name.
    File(String),
    /// The standard output.
    Stdout,
}

impl OutputSink {
    /// Whether what a run has written goes out to this place. After a run
    /// that succeeded it always does. After one that failed a stream still
    /// takes what was written before the fault, but a file does not, so that
    /// a failed run leaves the file as it was.
    pub fn commits(&self, succeeded: bool) -> (r: bool)
        ensures
            r == (succeeded || *self is Stdout),
    {
        match self {
            OutputSink::File(_) => succeeded,
            OutputSink::Stdout => true,
        }
    }
}

impl Args {
    /// Both directions are asked for.
    pub open spec fn direction_conflict(self) -> bool {
        self.to_json && self.to_msgpack
    }

    /// The input is given both as a file and as a text.
    pub open spec fn input_conflict(self) -> bool {
        self.input_file is Some && self.input is Some
    }

    /// A direction is asked for.
    pub open spec fn has_direction(self) -> bool {
        self.to_json || self.to_msgpack
    }

    /// The format that the name of the input file stands for.
    pub open spec fn input_format(self) -> FType {
        match self.input_file {
            Some(name) => format_of_name(name@),
            None => FType::Unknown,
        }
    }

    /// The format that the name of the output file stands for.
    pub open spec fn output_format(self) -> FType {
        match self.output_file {
            Some(name) => format_of_name(name@),
            None => FType::Unknown,
        }
    }

    /// The file names speak for a conversion to MessagePack.
    pub open spec fn names_say_msgpack(self) -> bool {
        self.input_format() == FType::Json || self.output_format() == FType::MessagePack
    }

    /// The file names speak for a conversion to JSON.
    pub open spec fn names_say_json(self) -> bool {
        self.input_format() == FType::MessagePack || self.output_format() == FType::Json
    }

    /// The arguments can be run: they do not contradict each other, and the
    /// direction is given or can be told from the file names.
    pub open spec fn valid(self) -> bool {
        &&& !self.direction_conflict()
        &&& !self.input_conflict()
        &&& (self.has_direction() || self.names_say_msgpack() || self.names_say_json())
    }

    /// The arguments with their direction settled. A direction that was asked
    /// for stands. Without one the file names decide, and where they speak for
    /// both directions, MessagePack is chosen.
    pub open spec fn resolved(self) -> Args {
        if self.has_direction() {
            self
        } else if self.names_say_msgpack() {
            Args { to_msgpack: true, ..self }
        } else if self.names_say_json() {
            Args { to_json: true, ..self }
        } else {
            self
        }
    }

    /// Checks the arguments against each other and settles the direction.
    ///
    /// Valid arguments are accepted and become [`Args::resolved`]. Others are
    /// refused and left as they were: both directions together, then a file
    /// and a text together as input, each as an [`Error::ArgConflict`] that
    /// names the two options; then a direction that is neither given nor to
    /// be told from the file names, as [`Error::NoDirection`].
    pub fn validate_update(&mut self) -> (r: Result<(), Error>)
        ensures
            old(self).valid() ==> r is Ok && *final(self) == old(self).resolved(),
            !old(self).valid() ==> r is Err && *final(self) == *old(self),
            old(self).direction_conflict() ==> (r matches Err(Error::ArgConflict(a, b)) && a@
                == "--to-json"@ && b@ == "--to-msgpack"@),
            !old(self).direction_conflict() && old(self).input_conflict() ==> (r matches Err(
                Error::ArgConflict(a, b),
            ) && a@ == "INPUT_FILE"@ && b@ == "--text"@),
            !old(self).direction_conflict() && !old(self).input_conflict() && !old(self).valid()
                ==> r == Err::<(), Error>(Error::NoDirection),
    {
        if self.to_json && self.to_msgpack {
            return Err(Error::ArgConflict("--to-json".to_owned(), "--to-msgpack".to_owned()));
        }
        if self.input_file.is_some() && self.input.is_some() {
            return Err(Error::ArgConflict("INPUT_FILE".to_owned(), "--text".to_owned()));
        }
        if !self.to_json && !self.to_msgpack {
            let in_ty = match &self.input_file {
                Some(name) => FType::from_fname(name.as_str()),
                None => FType::Unknown,
            };
            let out_ty = match &self.output_file {
                Some(name) => FType::from_fname(name.as_str()),
                None => FType::Unknown,
            };
            let output_mp = matches!(in_ty, FType::Json) || matches!(out_ty, FType::MessagePack);
            let output_json = matches!(in_ty, FType::MessagePack) || matches!(out_ty, FType::Json);
            if output_mp {
                self.to_msgpack = true;
            } else if output_json {
                self.to_json = true;
            } else {
                return Err(Error::NoDirection);
            }
        }
        Ok(())
    }

    /// Where the input comes from: the file, if one is named; else the text
    /// given as an argument; else the standard input.
    pub fn get_input(&self) -> (r: InputSource)
        ensures
            match (self.input_file, self.input) {
                (Some(name), _) => r == InputSource::File(name),
                (None, Some(text)) => r == InputSource::Text(text),
                (None, None) => r == InputSource::Stdin,
            },
    {
        match &self.input_file {
            Some(name) => InputSource::File(name.clone()),
            None => match &self.input {
                Some(text) => InputSource::Text(text.clone()),
                None => InputSource::Stdin,
            },
        }
    }

    /// Where the output goes: to the file, if one is named; else to the
    /// standard output.
    pub fn get_output(&self) -> (r: OutputSink)
        ensures
            match self.output_file {
                Some(name) => r == OutputSink::File(name),
                None => r == OutputSink::Stdout,
            },
    {
        match &self.output_file {
            Some(name) => OutputSink::File(name.clone()),
            None => OutputSink::Stdout,
        }
    }
}

/// A direction that was asked for is never overridden by what the file
/// names say: arguments that name a direction are resolved to themselves.
pub proof fn lemma_flags_are_kept(args: Args)
    requires
        args.has_direction(),
    ensures
        args.resolved() == args,
{
}

/// Settled arguments ask for exactly one direction.
pub proof fn lemma_one_direction(args: Args)
    requires
        args.valid(),
    ensures
        args.resolved().to_json != args.resolved().to_msgpack,
{
}

/// Checking twice is checking once: what valid arguments are resolved to is
/// valid again, and is resolved to itself.
pub proof fn lemma_validation_is_idempotent(args: Args)
    requires
        args.valid(),
    ensures
        args.resolved().valid(),
        args.resolved().resolved() == args.resolved(),
{
}

/// Only the direction is ever settled: the other arguments stay as given.
pub proof fn lemma_resolution_keeps_the_rest(args: Args)
    ensures
        args.resolved().verbose == args.verbose,
        args.resolved().input_file == args.input_file,
        args.resolved().input == args.input,
        args.resolved().output_file == args.output_file,
        args.resolved().hex == args.hex,
{
}

} // verus!
