use zero::opts;

fn args(given: &[&str]) -> Vec<String> {
    given.iter().map(|arg| arg.to_string()).collect()
}

#[test]
fn flags_have_the_documented_letters() {
    let table = [
        (opts::dryrun(), "d", "dry-run"),
        (opts::help(), "h", "help"),
        (opts::interactive(), "i", "interactive"),
        (opts::recursive(), "r", "recursive"),
        (opts::suppress(), "s", "suppress"),
        (opts::verbose(), "V", "verbose"),
        (opts::version(), "v", "version"),
    ];
    for (flag, short, long) in table {
        assert_eq!(flag.short, short);
        assert_eq!(flag.long, long);
        assert!(!flag.description.is_empty());
    }
}

#[test]
fn created_options_take_every_flag_in_both_spellings() {
    let options = opts::create();
    let short = opts::parse(&args(&["zero", "-d", "-h", "-i", "-r", "-s", "-V", "-v"]), &options)
        .unwrap();
    let long = opts::parse(
        &args(&[
            "zero",
            "--dry-run",
            "--help",
            "--interactive",
            "--recursive",
            "--suppress",
            "--verbose",
            "--version",
        ]),
        &options,
    )
    .unwrap();
    for name in ["d", "h", "i", "r", "s", "V", "v", "dry-run", "verbose", "version"] {
        assert!(short.opt_present(name));
        assert!(long.opt_present(name));
    }
    assert!(short.free.is_empty());
}

#[test]
fn parse_skips_the_name_of_the_program_and_keeps_the_paths() {
    let options = opts::create();
    let matches = opts::parse(&args(&["-i", "a", "-r", "b"]), &options).unwrap();
    assert!(!matches.opt_present("i"));
    assert!(matches.opt_present("r"));
    assert_eq!(matches.free, vec!["a", "b"]);
    let matches = opts::parse(&args(&["zero"]), &options).unwrap();
    assert!(matches.free.is_empty());
    assert!(!matches.opt_present("d"));
}

#[test]
fn parse_complains_in_lowercase_and_hints_at_help() {
    let options = opts::create();
    assert_eq!(
        opts::parse(&args(&["zero", "-x"]), &options).unwrap_err(),
        "unrecognized option: 'x'\nTry 'zero --help' for more information."
    );
    assert_eq!(
        opts::parse(&args(&["zero", "--Recursive"]), &options).unwrap_err(),
        "unrecognized option: 'recursive'\nTry 'zero --help' for more information."
    );
    assert_eq!(
        opts::parse(&args(&["zero", "-r", "-r"]), &options).unwrap_err(),
        "option 'recursive' given more than once\nTry 'zero --help' for more information."
    );
    assert_eq!(
        opts::parse(&args(&["zero", "--suppress=1"]), &options).unwrap_err(),
        "option 'suppress' does not take an argument\nTry 'zero --help' for more information."
    );
}

#[test]
fn validate_rejects_interactive_with_suppress() {
    let options = opts::create();
    let matches = opts::parse(&args(&["zero", "-i", "--suppress", "f"]), &options).unwrap();
    assert_eq!(
        opts::validate(&matches).unwrap_err(),
        "conflicting options: 'interactive', 'suppress'\nTry 'zero --help' for more information."
    );
}

#[test]
fn validate_accepts_everything_else() {
    let options = opts::create();
    for given in [
        vec!["zero"],
        vec!["zero", "-i"],
        vec!["zero", "-s"],
        vec!["zero", "-d", "-r", "-V", "x"],
        vec!["zero", "--interactive", "--dry-run"],
    ] {
        let matches = opts::parse(&args(&given), &options).unwrap();
        assert_eq!(opts::validate(&matches), Ok(()));
    }
}

#[test]
fn reformat_puts_in_lowercase_and_drops_the_full_stops_at_the_end() {
    assert_eq!(opts::reformat("Unrecognized option: 'x'"), "unrecognized option: 'x'");
    assert_eq!(opts::reformat("Something Went Wrong."), "something went wrong");
    assert_eq!(opts::reformat("No. Really..."), "no. really");
    assert_eq!(opts::reformat("..."), "");
    assert_eq!(opts::reformat(""), "");
}

#[test]
fn read_needs_the_name_of_the_program() {
    assert!(opts::read(&args(&[])).is_none());
    assert!(opts::read(&args(&["zero"])).unwrap().is_ok());
}

#[test]
fn read_parses_and_looks_for_conflicts() {
    let matches = opts::read(&args(&["zero", "-r", "-V", "a", "b"])).unwrap().unwrap();
    assert!(matches.opt_present("recursive"));
    assert!(matches.opt_present("verbose"));
    assert!(!matches.opt_present("version"));
    assert_eq!(matches.free, vec!["a", "b"]);
    assert_eq!(
        opts::read(&args(&["zero", "-s", "-i"])).unwrap().unwrap_err(),
        "conflicting options: 'interactive', 'suppress'\nTry 'zero --help' for more information."
    );
    assert_eq!(
        opts::read(&args(&["zero", "--nope"])).unwrap().unwrap_err(),
        "unrecognized option: 'nope'\nTry 'zero --help' for more information."
    );
}
