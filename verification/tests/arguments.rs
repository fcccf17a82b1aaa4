use msgpack_cli::{Args, Error, InputSource, OutputSink};

fn name(s: &str) -> Option<String> {
    Some(s.to_string())
}

#[test]
fn both_directions_conflict() {
    let mut args = Args { to_json: true, to_msgpack: true, ..Args::default() };
    let before = args.clone();
    assert_eq!(
        args.validate_update(),
        Err(Error::ArgConflict("--to-json".to_string(), "--to-msgpack".to_string()))
    );
    assert_eq!(args, before);
}

#[test]
fn file_and_text_conflict() {
    let mut args = Args {
        to_json: true,
        input_file: name("in.mpk"),
        input: name("80"),
        ..Args::default()
    };
    let before = args.clone();
    assert_eq!(
        args.validate_update(),
        Err(Error::ArgConflict("INPUT_FILE".to_string(), "--text".to_string()))
    );
    assert_eq!(args, before);
}

#[test]
fn direction_conflict_is_reported_first() {
    let mut args = Args {
        to_json: true,
        to_msgpack: true,
        input_file: name("in.mpk"),
        input: name("80"),
        ..Args::default()
    };
    assert_eq!(
        args.validate_update(),
        Err(Error::ArgConflict("--to-json".to_string(), "--to-msgpack".to_string()))
    );
}

#[test]
fn input_conflict_is_reported_before_a_missing_direction() {
    let mut args = Args { input_file: name("in"), input: name("80"), ..Args::default() };
    assert_eq!(
        args.validate_update(),
        Err(Error::ArgConflict("INPUT_FILE".to_string(), "--text".to_string()))
    );
}

#[test]
fn no_flags_and_no_names_give_no_direction() {
    let mut args = Args::default();
    assert_eq!(args.validate_update(), Err(Error::NoDirection));
    assert_eq!(args, Args::default());
    assert_eq!(Error::NoDirection.exit_code(), 6);
}

#[test]
fn unknown_extensions_give_no_direction() {
    let mut args = Args {
        input_file: name("in.txt"),
        output_file: name("out.bin"),
        hex: true,
        verbose: true,
        ..Args::default()
    };
    let before = args.clone();
    assert_eq!(args.validate_update(), Err(Error::NoDirection));
    assert_eq!(args, before);
}

#[test]
fn inline_text_alone_gives_no_direction() {
    let mut args = Args { input: name("{}"), ..Args::default() };
    assert_eq!(args.validate_update(), Err(Error::NoDirection));
}

#[test]
fn json_input_means_to_msgpack() {
    let mut args = Args { input_file: name("in.json"), ..Args::default() };
    assert_eq!(args.validate_update(), Ok(()));
    assert_eq!(args, Args { to_msgpack: true, input_file: name("in.json"), ..Args::default() });
}

#[test]
fn msgpack_output_means_to_msgpack() {
    let mut args = Args { output_file: name("out.MPK"), ..Args::default() };
    assert_eq!(args.validate_update(), Ok(()));
    assert!(args.to_msgpack && !args.to_json);
}

#[test]
fn msgpack_input_means_to_json() {
    let mut args = Args { input_file: name("in.msgpack"), ..Args::default() };
    assert_eq!(args.validate_update(), Ok(()));
    assert_eq!(args, Args { to_json: true, input_file: name("in.msgpack"), ..Args::default() });
}

#[test]
fn json_output_means_to_json() {
    let mut args = Args { output_file: name("out.Json"), input: name("80"), hex: true, ..Args::default() };
    assert_eq!(args.validate_update(), Ok(()));
    assert!(args.to_json && !args.to_msgpack);
    assert!(args.hex);
    assert_eq!(args.input, name("80"));
}

#[test]
fn names_for_both_directions_mean_to_msgpack() {
    let mut args = Args {
        input_file: name("in.mpk"),
        output_file: name("out.mpk"),
        ..Args::default()
    };
    assert_eq!(args.validate_update(), Ok(()));
    assert!(args.to_msgpack && !args.to_json);
    let mut args = Args {
        input_file: name("in.json"),
        output_file: name("out.json"),
        ..Args::default()
    };
    assert_eq!(args.validate_update(), Ok(()));
    assert!(args.to_msgpack && !args.to_json);
}

#[test]
fn a_given_direction_is_not_overridden_by_names() {
    let mut args = Args {
        to_json: true,
        input_file: name("in.json"),
        output_file: name("out.msgpack"),
        ..Args::default()
    };
    let before = args.clone();
    assert_eq!(args.validate_update(), Ok(()));
    assert_eq!(args, before);
    let mut args = Args {
        to_msgpack: true,
        input_file: name("in.msgpack"),
        output_file: name("out.json"),
        ..Args::default()
    };
    let before = args.clone();
    assert_eq!(args.validate_update(), Ok(()));
    assert_eq!(args, before);
}

#[test]
fn a_given_direction_needs_no_names() {
    let mut args = Args { to_msgpack: true, ..Args::default() };
    assert_eq!(args.validate_update(), Ok(()));
    assert_eq!(args, Args { to_msgpack: true, ..Args::default() });
}

#[test]
fn validating_twice_changes_nothing_more() {
    let mut args = Args { input_file: name("in.json"), output_file: name("x.json"), ..Args::default() };
    assert_eq!(args.validate_update(), Ok(()));
    let once = args.clone();
    assert_eq!(args.validate_update(), Ok(()));
    assert_eq!(args, once);
}

#[test]
fn input_comes_from_file_first() {
    let args = Args { input_file: name("in.json"), input: name("{}"), ..Args::default() };
    assert_eq!(args.get_input(), InputSource::File("in.json".to_string()));
}

#[test]
fn input_comes_from_text_without_a_file() {
    let args = Args { input: name("{}"), ..Args::default() };
    assert_eq!(args.get_input(), InputSource::Text("{}".to_string()));
}

#[test]
fn input_comes_from_stdin_otherwise() {
    assert_eq!(Args::default().get_input(), InputSource::Stdin);
}

#[test]
fn output_goes_to_file_or_stdout() {
    let args = Args { output_file: name("out.mpk"), ..Args::default() };
    assert_eq!(args.get_output(), OutputSink::File("out.mpk".to_string()));
    assert_eq!(Args::default().get_output(), OutputSink::Stdout);
}

#[test]
fn a_file_is_written_only_after_success() {
    let file = OutputSink::File("out.json".to_string());
    assert!(file.commits(true));
    assert!(!file.commits(false));
}

#[test]
fn a_stream_takes_what_was_written_either_way() {
    assert!(OutputSink::Stdout.commits(true));
    assert!(OutputSink::Stdout.commits(false));
}
