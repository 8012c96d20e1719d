use move_fuzz::options::{
    BuildMode, BuildOptions, CargoBuildOptions, FuzzDirWrapper, MoveBuildOptions, Sanitizer,
};
use move_fuzz::parse::ParseError;

const DEFAULT_TRIPLE: &str = "x86_64-unknown-linux-gnu";

fn default_cargo_opts() -> CargoBuildOptions {
    CargoBuildOptions {
        release: false,
        debug_assertions: false,
        no_default_features: false,
        all_features: false,
        features: None,
        sanitizer: Sanitizer::Address,
        build_std: false,
        careful_mode: false,
        triple: String::from(DEFAULT_TRIPLE),
        unstable_flags: Vec::new(),
        coverage: false,
        strip_dead_code: false,
        no_cfg_fuzzing: false,
        no_trace_compares: false,
    }
}

fn reparse(opts: &BuildOptions) -> BuildOptions {
    let s = opts.flags(DEFAULT_TRIPLE);
    let toks: Vec<String> = s.split(' ').skip(1).map(|t| t.to_string()).collect();
    BuildOptions::parse(&toks, DEFAULT_TRIPLE).unwrap()
}

fn parse_tokens(toks: &[&str]) -> Result<BuildOptions, ParseError> {
    let v: Vec<String> = toks.iter().map(|t| t.to_string()).collect();
    BuildOptions::parse(&v, DEFAULT_TRIPLE)
}

#[test]
fn display_build_options() {
    let default_cargo_opts = default_cargo_opts();

    let default_move_opts = MoveBuildOptions {
        bytecode_version: Some(0),
        fetch_deps_only: false,
        force: false,
        skip_fetch_latest_git_deps: false,
    };

    let default_move_opts = MoveBuildOptions {
        bytecode_version: None,
        fetch_deps_only: false,
        force: false,
        skip_fetch_latest_git_deps: false,
    };

    let default_opts = BuildOptions {
        dev: false,
        verbose: false,
        target_dir: None,
        cargo_options: default_cargo_opts.clone(),
        move_options: default_move_opts.clone(),
    };

    let opts = vec![
        default_opts.clone(),
        BuildOptions { dev: true, ..default_opts.clone() },
        BuildOptions {
            cargo_options: CargoBuildOptions { release: true, ..default_cargo_opts.clone() },
            ..default_opts.clone()
        },
        BuildOptions {
            cargo_options: CargoBuildOptions {
                debug_assertions: true,
                ..default_cargo_opts.clone()
            },
            ..default_opts.clone()
        },
        BuildOptions { verbose: true, ..default_opts.clone() },
        BuildOptions {
            cargo_options: CargoBuildOptions {
                no_default_features: true,
                ..default_cargo_opts.clone()
            },
            ..default_opts.clone()
        },
        BuildOptions {
            cargo_options: CargoBuildOptions { all_features: true, ..default_cargo_opts.clone() },
            ..default_opts.clone()
        },
        BuildOptions {
            cargo_options: CargoBuildOptions {
                features: Some(String::from("features")),
                ..default_cargo_opts.clone()
            },
            ..default_opts.clone()
        },
        BuildOptions {
            cargo_options: CargoBuildOptions {
                sanitizer: Sanitizer::NoSanitizer,
                ..default_cargo_opts.clone()
            },
            ..default_opts.clone()
        },
        BuildOptions {
            cargo_options: CargoBuildOptions {
                triple: String::from("custom_triple"),
                ..default_cargo_opts.clone()
            },
            ..default_opts.clone()
        },
        BuildOptions {
            cargo_options: CargoBuildOptions {
                unstable_flags: vec![String::from("unstable"), String::from("flags")],
                ..default_cargo_opts.clone()
            },
            ..default_opts.clone()
        },
        BuildOptions { target_dir: Some(String::from("/tmp/test")), ..default_opts.clone() },
        default_opts.clone(), // With coverage false
    ];

    let mut i = 0;
    for case in opts {
        println!("{i}");
        i += 1;
        println!("{:?}", case);
        println!();
        println!("{}", case.flags(DEFAULT_TRIPLE));
        println!();
        assert_eq!(case, reparse(&case));
    }
}

#[test]
fn default_options_serialize_to_empty_string() {
    let opts = BuildOptions::default_with_triple(DEFAULT_TRIPLE);
    assert_eq!(opts.flags(DEFAULT_TRIPLE), "");
    assert_eq!(opts, reparse(&opts));
}

#[test]
fn sanitizer_asymmetry() {
    let mut addr = BuildOptions::default_with_triple(DEFAULT_TRIPLE);
    addr.cargo_options.sanitizer = Sanitizer::Address;
    assert_eq!(addr.flags(DEFAULT_TRIPLE), "");

    let mut none = BuildOptions::default_with_triple(DEFAULT_TRIPLE);
    none.cargo_options.sanitizer = Sanitizer::NoSanitizer;
    assert_eq!(none.flags(DEFAULT_TRIPLE), " --sanitizer=none");

    assert_eq!(reparse(&addr).cargo_options.sanitizer, Sanitizer::Address);
    assert_eq!(reparse(&none).cargo_options.sanitizer, Sanitizer::NoSanitizer);
    assert_ne!(reparse(&addr), none);
    assert_ne!(reparse(&none), addr);
}

#[test]
fn sanitizer_display_names() {
    assert_eq!(Sanitizer::Address.display(), "address");
    assert_eq!(Sanitizer::Leak.display(), "leak");
    assert_eq!(Sanitizer::Memory.display(), "memory");
    assert_eq!(Sanitizer::Thread.display(), "thread");
    assert_eq!(Sanitizer::NoSanitizer.display(), "");
}

#[test]
fn explicit_sanitizers_round_trip() {
    for s in [Sanitizer::Leak, Sanitizer::Memory, Sanitizer::Thread] {
        let mut opts = BuildOptions::default_with_triple(DEFAULT_TRIPLE);
        opts.cargo_options.sanitizer = s;
        assert_eq!(
            opts.flags(DEFAULT_TRIPLE),
            format!(" --sanitizer={}", s.display())
        );
        assert_eq!(reparse(&opts), opts);
    }
}

#[test]
fn triple_omission() {
    let native = BuildOptions::default_with_triple(DEFAULT_TRIPLE);
    assert_eq!(native.flags(DEFAULT_TRIPLE), "");

    let mut custom = BuildOptions::default_with_triple(DEFAULT_TRIPLE);
    custom.cargo_options.triple = String::from("custom_triple");
    assert_eq!(custom.flags(DEFAULT_TRIPLE), " --target=custom_triple");
    assert_eq!(reparse(&custom), custom);
}

#[test]
fn unstable_flags_preserve_order() {
    let mut opts = BuildOptions::default_with_triple(DEFAULT_TRIPLE);
    opts.cargo_options.unstable_flags = vec![String::from("a"), String::from("b")];
    assert_eq!(opts.flags(DEFAULT_TRIPLE), " -Za -Zb");
    let back = reparse(&opts);
    assert_eq!(
        back.cargo_options.unstable_flags,
        vec![String::from("a"), String::from("b")]
    );
    assert_eq!(back, opts);
}

#[test]
fn end_to_end_example() {
    let parsed = parse_tokens(&[
        "-O",
        "--features=foo",
        "--sanitizer=none",
        "-Zunstable1",
        "-Zunstable2",
    ])
    .unwrap();
    assert!(parsed.cargo_options.release);
    assert_eq!(parsed.cargo_options.features, Some(String::from("foo")));
    assert_eq!(parsed.cargo_options.sanitizer, Sanitizer::NoSanitizer);
    assert_eq!(
        parsed.cargo_options.unstable_flags,
        vec![String::from("unstable1"), String::from("unstable2")]
    );
    let s = parsed.flags(DEFAULT_TRIPLE);
    assert_eq!(s, " -O --features=foo --sanitizer=none -Zunstable1 -Zunstable2");
    assert_eq!(reparse(&parsed), parsed);
}

#[test]
fn conflicting_flags_are_rejected() {
    assert_eq!(parse_tokens(&["--dev", "--release"]), Err(ParseError::Conflict));
    assert_eq!(parse_tokens(&["-D", "-O"]), Err(ParseError::Conflict));
    assert_eq!(
        parse_tokens(&["--all-features", "--no-default-features"]),
        Err(ParseError::Conflict)
    );
    assert_eq!(
        parse_tokens(&["--all-features", "--features=x"]),
        Err(ParseError::Conflict)
    );
}

#[test]
fn malformed_values_are_rejected() {
    assert_eq!(
        parse_tokens(&["--bytecode-version=abc"]),
        Err(ParseError::MalformedValue)
    );
    assert_eq!(
        parse_tokens(&["--bytecode-version=99999999999"]),
        Err(ParseError::MalformedValue)
    );
    assert_eq!(parse_tokens(&["--features"]), Err(ParseError::MalformedValue));
    assert_eq!(parse_tokens(&["--sanitizer=bogus"]), Err(ParseError::MalformedValue));
    assert_eq!(parse_tokens(&["--sanitizer"]), Err(ParseError::MalformedValue));
}

#[test]
fn unknown_flags_are_rejected() {
    assert_eq!(parse_tokens(&["--frobnicate"]), Err(ParseError::UnrecognizedFlag));
    assert_eq!(parse_tokens(&[""]), Err(ParseError::UnrecognizedFlag));
}

#[test]
fn bytecode_version_round_trips() {
    let mut opts = BuildOptions::default_with_triple(DEFAULT_TRIPLE);
    opts.move_options.bytecode_version = Some(42);
    assert_eq!(opts.flags(DEFAULT_TRIPLE), " --bytecode-version=42");
    assert_eq!(reparse(&opts), opts);

    let max = u32::MAX;
    opts.move_options.bytecode_version = Some(max);
    assert_eq!(opts.flags(DEFAULT_TRIPLE), " --bytecode-version=4294967295");
    assert_eq!(reparse(&opts), opts);
}

#[test]
fn short_and_long_flags_parse_alike() {
    assert_eq!(parse_tokens(&["-D"]), parse_tokens(&["--dev"]));
    assert_eq!(parse_tokens(&["-v"]), parse_tokens(&["--verbose"]));
    assert_eq!(parse_tokens(&["-O"]), parse_tokens(&["--release"]));
    assert_eq!(parse_tokens(&["-a"]), parse_tokens(&["--debug-assertions"]));
    assert_eq!(parse_tokens(&["-c"]), parse_tokens(&["--careful"]));
    assert_eq!(parse_tokens(&["-s=leak"]), parse_tokens(&["--sanitizer=leak"]));
}

#[test]
fn coverage_round_trips_programmatically() {
    let mut opts = BuildOptions::default_with_triple(DEFAULT_TRIPLE);
    opts.cargo_options.coverage = true;
    assert_eq!(opts.flags(DEFAULT_TRIPLE), " --coverage");
    assert_eq!(reparse(&opts), opts);
}

#[test]
fn fuzz_dir_wrapper_round_trips() {
    let unset = FuzzDirWrapper { fuzz_dir: None };
    assert_eq!(unset.flags(), "");
    let toks: Vec<String> = Vec::new();
    assert_eq!(FuzzDirWrapper::parse(&toks).unwrap(), unset);

    let set = FuzzDirWrapper { fuzz_dir: Some(String::from("/tmp/corpus")) };
    assert_eq!(set.flags(), " --fuzz-dir=/tmp/corpus");
    let toks: Vec<String> = set.flags().split(' ').skip(1).map(|t| t.to_string()).collect();
    assert_eq!(FuzzDirWrapper::parse(&toks).unwrap(), set);

    let bad: Vec<String> = vec![String::from("--fuzz-dir")];
    assert_eq!(FuzzDirWrapper::parse(&bad), Err(ParseError::MalformedValue));
    let unknown: Vec<String> = vec![String::from("--dev")];
    assert_eq!(FuzzDirWrapper::parse(&unknown), Err(ParseError::UnrecognizedFlag));
}

#[test]
fn build_mode_variants_are_distinct() {
    assert_ne!(BuildMode::Build, BuildMode::Check);
    assert_eq!(BuildMode::Build, BuildMode::Build);
}

#[test]
fn move_options_serialize_in_order() {
    let m = MoveBuildOptions {
        bytecode_version: Some(7),
        fetch_deps_only: true,
        force: true,
        skip_fetch_latest_git_deps: true,
    };
    let toks = m.serialize_tokens();
    let expect = vec![
        String::from("--bytecode-version=7"),
        String::from("--fetch-deps-only"),
        String::from("--force"),
        String::from("--skip-fetch-latest-git-deps"),
    ];
    assert_eq!(toks, expect);
}
