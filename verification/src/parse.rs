//! Structured parsing of command-line flag tokens back into the
//! configuration: the exact inverse of serialization.
//!
//! Each token either sets one field of the configuration or is rejected:
//! a value-bearing flag with a missing or ill-typed value is a
//! [`ParseError::MalformedValue`], an unknown token a
//! [`ParseError::UnrecognizedFlag`]. After all tokens are applied, the
//! mutual-exclusion rules are checked and violations are reported as
//! [`ParseError::Conflict`].

use vstd::prelude::*;
use crate::options::{
    BuildOptions, BuildOptionsView, CargoOptionsView, FuzzDirView, FuzzDirWrapper,
    MoveOptionsView, Sanitizer, default_build_options,
};
use crate::text::{
    all_digits, all_views, dec_val, has_prefix, lemma_all_views_push, parse_u32_dec, str_eq,
    strip_prefix,
};

verus! {

/// A rejected flag stream: mutually exclusive flags both present, a bad
/// or missing value on a typed flag, or an unknown token.
#[derive(Copy, Clone, Debug, Eq, PartialEq, Structural)]
pub enum ParseError {
    Conflict,
    MalformedValue,
    UnrecognizedFlag,
}

/// The sanitizer selected by a `--sanitizer=` flag value, if the value is
/// a canonical sanitizer name.
pub open spec fn sanitizer_of_name(v: Seq<char>) -> Option<Sanitizer> {
    if v == "address"@ {
        Some(Sanitizer::Address)
    } else if v == "leak"@ {
        Some(Sanitizer::Leak)
    } else if v == "memory"@ {
        Some(Sanitizer::Memory)
    } else if v == "thread"@ {
        Some(Sanitizer::Thread)
    } else if v == "none"@ {
        Some(Sanitizer::NoSanitizer)
    } else {
        None
    }
}

/// The effect of a sanitizer flag value on the configuration.
pub open spec fn sanitizer_effect(st: BuildOptionsView, v: Seq<char>) -> Result<
    BuildOptionsView,
    ParseError,
> {
    match sanitizer_of_name(v) {
        Some(s) => Ok(
            BuildOptionsView {
                cargo_options: CargoOptionsView { sanitizer: s, ..st.cargo_options },
                ..st
            },
        ),
        None => Err(ParseError::MalformedValue),
    }
}

/// The effect of a top-level boolean flag token, if `t` is one.
#[verifier::opaque]
pub open spec fn top_flag_effect(st: BuildOptionsView, t: Seq<char>) -> Option<BuildOptionsView> {
    if t == "-D"@ || t == "--dev"@ {
        Some(BuildOptionsView { dev: true, ..st })
    } else if t == "-v"@ || t == "--verbose"@ {
        Some(BuildOptionsView { verbose: true, ..st })
    } else {
        None
    }
}

/// The effect of a boolean native-build flag token, if `t` is one.
#[verifier::opaque]
pub open spec fn cargo_flag_effect(st: BuildOptionsView, t: Seq<char>) -> Option<
    BuildOptionsView,
> {
    if t == "-O"@ || t == "--release"@ {
        Some(
            BuildOptionsView {
                cargo_options: CargoOptionsView { release: true, ..st.cargo_options },
                ..st
            },
        )
    } else if t == "-a"@ || t == "--debug-assertions"@ {
        Some(
            BuildOptionsView {
                cargo_options: CargoOptionsView { debug_assertions: true, ..st.cargo_options },
                ..st
            },
        )
    } else if t == "--no-default-features"@ {
        Some(
            BuildOptionsView {
                cargo_options: CargoOptionsView { no_default_features: true, ..st.cargo_options },
                ..st
            },
        )
    } else if t == "--all-features"@ {
        Some(
            BuildOptionsView {
                cargo_options: CargoOptionsView { all_features: true, ..st.cargo_options },
                ..st
            },
        )
    } else if t == "--build-std"@ {
        Some(
            BuildOptionsView {
                cargo_options: CargoOptionsView { build_std: true, ..st.cargo_options },
                ..st
            },
        )
    } else if t == "-c"@ || t == "--careful"@ {
        Some(
            BuildOptionsView {
                cargo_options: CargoOptionsView { careful_mode: true, ..st.cargo_options },
                ..st
            },
        )
    } else if t == "--coverage"@ {
        Some(
            BuildOptionsView {
                cargo_options: CargoOptionsView { coverage: true, ..st.cargo_options },
                ..st
            },
        )
    } else if t == "--strip-dead-code"@ {
        Some(
            BuildOptionsView {
                cargo_options: CargoOptionsView { strip_dead_code: true, ..st.cargo_options },
                ..st
            },
        )
    } else if t == "--no-cfg-fuzzing"@ {
        Some(
            BuildOptionsView {
                cargo_options: CargoOptionsView { no_cfg_fuzzing: true, ..st.cargo_options },
                ..st
            },
        )
    } else if t == "--no-trace-compares"@ {
        Some(
            BuildOptionsView {
                cargo_options: CargoOptionsView { no_trace_compares: true, ..st.cargo_options },
                ..st
            },
        )
    } else {
        None
    }
}

/// The effect of a boolean Move-option flag token, if `t` is one.
#[verifier::opaque]
pub open spec fn move_flag_effect(st: BuildOptionsView, t: Seq<char>) -> Option<BuildOptionsView> {
    if t == "--fetch-deps-only"@ {
        Some(
            BuildOptionsView {
                move_options: MoveOptionsView { fetch_deps_only: true, ..st.move_options },
                ..st
            },
        )
    } else if t == "--force"@ {
        Some(
            BuildOptionsView {
                move_options: MoveOptionsView { force: true, ..st.move_options },
                ..st
            },
        )
    } else if t == "--skip-fetch-latest-git-deps"@ {
        Some(
            BuildOptionsView {
                move_options: MoveOptionsView {
                    skip_fetch_latest_git_deps: true,
                    ..st.move_options
                },
                ..st
            },
        )
    } else {
        None
    }
}

/// The effect of a value-bearing flag token, or the rejection of `t`. A
/// bare value-bearing flag without its `=value` part is malformed; a
/// token matching no flag is unrecognized.
#[verifier::opaque]
pub open spec fn value_token_effect(st: BuildOptionsView, t: Seq<char>) -> Result<
    BuildOptionsView,
    ParseError,
> {
    if t == "--target-dir"@ || t == "--features"@ || t == "--sanitizer"@ || t == "-s"@
        || t == "--target"@ || t == "--bytecode-version"@ {
        Err(ParseError::MalformedValue)
    } else if has_prefix(t, "--target-dir="@) {
        Ok(BuildOptionsView { target_dir: Some(t.skip("--target-dir="@.len() as int)), ..st })
    } else if has_prefix(t, "--features="@) {
        Ok(
            BuildOptionsView {
                cargo_options: CargoOptionsView {
                    features: Some(t.skip("--features="@.len() as int)),
                    ..st.cargo_options
                },
                ..st
            },
        )
    } else if has_prefix(t, "--sanitizer="@) {
        sanitizer_effect(st, t.skip("--sanitizer="@.len() as int))
    } else if has_prefix(t, "-s="@) {
        sanitizer_effect(st, t.skip("-s="@.len() as int))
    } else if has_prefix(t, "--target="@) {
        Ok(
            BuildOptionsView {
                cargo_options: CargoOptionsView {
                    triple: t.skip("--target="@.len() as int),
                    ..st.cargo_options
                },
                ..st
            },
        )
    } else if has_prefix(t, "--bytecode-version="@) {
        let v = t.skip("--bytecode-version="@.len() as int);
        if v.len() > 0 && all_digits(v) && dec_val(v) <= u32::MAX as nat {
            Ok(
                BuildOptionsView {
                    move_options: MoveOptionsView {
                        bytecode_version: Some(dec_val(v) as u32),
                        ..st.move_options
                    },
                    ..st
                },
            )
        } else {
            Err(ParseError::MalformedValue)
        }
    } else if has_prefix(t, "-Z"@) {
        Ok(
            BuildOptionsView {
                cargo_options: CargoOptionsView {
                    unstable_flags: st.cargo_options.unstable_flags.push(
                        t.skip("-Z"@.len() as int),
                    ),
                    ..st.cargo_options
                },
                ..st
            },
        )
    } else {
        Err(ParseError::UnrecognizedFlag)
    }
}

/// The effect of one flag token on the configuration: either the
/// configuration with exactly one field updated, or the rejection of the
/// token.
pub open spec fn token_effect(st: BuildOptionsView, t: Seq<char>) -> Result<
    BuildOptionsView,
    ParseError,
> {
    match top_flag_effect(st, t) {
        Some(o) => Ok(o),
        None => match cargo_flag_effect(st, t) {
            Some(o) => Ok(o),
            None => match move_flag_effect(st, t) {
                Some(o) => Ok(o),
                None => value_token_effect(st, t),
            },
        },
    }
}

/// The effect of a whole token stream, applied left to right; the first
/// rejected token rejects the stream.
pub open spec fn stream_effect(st: BuildOptionsView, toks: Seq<Seq<char>>) -> Result<
    BuildOptionsView,
    ParseError,
>
    decreases toks.len(),
{
    if toks.len() == 0 {
        Ok(st)
    } else {
        match stream_effect(st, toks.drop_last()) {
            Ok(m) => token_effect(m, toks.last()),
            Err(e) => Err(e),
        }
    }
}

/// The mutual-exclusion rules violated by a parsed configuration, if any:
/// `dev` with `release`, or `all_features` with `no_default_features` or
/// an explicit feature selection.
pub open spec fn has_conflict(o: BuildOptionsView) -> bool {
    ||| (o.dev && o.cargo_options.release)
    ||| (o.cargo_options.all_features && o.cargo_options.no_default_features)
    ||| (o.cargo_options.all_features && o.cargo_options.features is Some)
}

/// The result of parsing a token stream, starting from the all-defaults
/// configuration for the given host-native triple: every token applied in
/// order, then the mutual-exclusion rules enforced.
pub open spec fn parse_outcome(toks: Seq<Seq<char>>, default_triple: Seq<char>) -> Result<
    BuildOptionsView,
    ParseError,
> {
    match stream_effect(default_build_options(default_triple), toks) {
        Ok(o) => if has_conflict(o) {
            Err(ParseError::Conflict)
        } else {
            Ok(o)
        },
        Err(e) => Err(e),
    }
}

/// Applies a top-level boolean flag token, if `t` is one.
fn apply_top_flag(o: &mut BuildOptions, t: &str) -> (r: bool)
    ensures
        r ==> top_flag_effect(old(o)@, t@) == Some(final(o)@),
        !r ==> final(o)@ == old(o)@ && top_flag_effect(old(o)@, t@) is None,
{
    proof {
        reveal(top_flag_effect);
    }
    if str_eq(t, "-D") || str_eq(t, "--dev") {
        o.dev = true;
        true
    } else if str_eq(t, "-v") || str_eq(t, "--verbose") {
        o.verbose = true;
        true
    } else {
        false
    }
}

/// Applies a boolean native-build flag token, if `t` is one.
#[verifier::rlimit(100)]
fn apply_cargo_flag(o: &mut BuildOptions, t: &str) -> (r: bool)
    ensures
        r ==> cargo_flag_effect(old(o)@, t@) == Some(final(o)@),
        !r ==> final(o)@ == old(o)@ && cargo_flag_effect(old(o)@, t@) is None,
{
    proof {
        reveal(cargo_flag_effect);
    }
    if str_eq(t, "-O") || str_eq(t, "--release") {
        o.cargo_options.release = true;
        true
    } else if str_eq(t, "-a") || str_eq(t, "--debug-assertions") {
        o.cargo_options.debug_assertions = true;
        true
    } else if str_eq(t, "--no-default-features") {
        o.cargo_options.no_default_features = true;
        true
    } else if str_eq(t, "--all-features") {
        o.cargo_options.all_features = true;
        true
    } else if str_eq(t, "--build-std") {
        o.cargo_options.build_std = true;
        true
    } else if str_eq(t, "-c") || str_eq(t, "--careful") {
        o.cargo_options.careful_mode = true;
        true
    } else if str_eq(t, "--coverage") {
        o.cargo_options.coverage = true;
        true
    } else if str_eq(t, "--strip-dead-code") {
        o.cargo_options.strip_dead_code = true;
        true
    } else if str_eq(t, "--no-cfg-fuzzing") {
        o.cargo_options.no_cfg_fuzzing = true;
        true
    } else if str_eq(t, "--no-trace-compares") {
        o.cargo_options.no_trace_compares = true;
        true
    } else {
        false
    }
}

/// Applies a boolean Move-option flag token, if `t` is one.
fn apply_move_flag(o: &mut BuildOptions, t: &str) -> (r: bool)
    ensures
        r ==> move_flag_effect(old(o)@, t@) == Some(final(o)@),
        !r ==> final(o)@ == old(o)@ && move_flag_effect(old(o)@, t@) is None,
{
    proof {
        reveal(move_flag_effect);
    }
    if str_eq(t, "--fetch-deps-only") {
        o.move_options.fetch_deps_only = true;
        true
    } else if str_eq(t, "--force") {
        o.move_options.force = true;
        true
    } else if str_eq(t, "--skip-fetch-latest-git-deps") {
        o.move_options.skip_fetch_latest_git_deps = true;
        true
    } else {
        false
    }
}

/// Applies a value-bearing flag token, or rejects it.
#[verifier::rlimit(100)]
fn apply_value_token(o: &mut BuildOptions, t: &str) -> (r: Result<(), ParseError>)
    ensures
        match r {
            Ok(()) => value_token_effect(old(o)@, t@) == Ok::<BuildOptionsView, ParseError>(
                final(o)@,
            ),
            Err(e) => value_token_effect(old(o)@, t@) == Err::<BuildOptionsView, ParseError>(e)
                && final(o)@ == old(o)@,
        },
{
    proof {
        reveal(value_token_effect);
    }
    if str_eq(t, "--target-dir") || str_eq(t, "--features") || str_eq(t, "--sanitizer") || str_eq(
        t,
        "-s",
    ) || str_eq(t, "--target") || str_eq(t, "--bytecode-version") {
        return Err(ParseError::MalformedValue);
    }
    if let Some(rest) = strip_prefix(t, "--target-dir=") {
        o.target_dir = Some(rest);
        return Ok(());
    }
    if let Some(rest) = strip_prefix(t, "--features=") {
        o.cargo_options.features = Some(rest);
        return Ok(());
    }
    if let Some(rest) = strip_prefix(t, "--sanitizer=") {
        return apply_sanitizer(o, &rest);
    }
    if let Some(rest) = strip_prefix(t, "-s=") {
        return apply_sanitizer(o, &rest);
    }
    if let Some(rest) = strip_prefix(t, "--target=") {
        o.cargo_options.triple = rest;
        return Ok(());
    }
    if let Some(rest) = strip_prefix(t, "--bytecode-version=") {
        match parse_u32_dec(rest.as_str()) {
            Some(n) => {
                o.move_options.bytecode_version = Some(n);
                return Ok(());
            },
            None => {
                return Err(ParseError::MalformedValue);
            },
        }
    }
    if let Some(rest) = strip_prefix(t, "-Z") {
        let ghost prev = o.cargo_options.unstable_flags@;
        o.cargo_options.unstable_flags.push(rest);
        proof {
            lemma_all_views_push(prev, rest);
        }
        return Ok(());
    }
    Err(ParseError::UnrecognizedFlag)
}

/// Applies one token to the configuration being built.
fn apply_token(o: &mut BuildOptions, t: &str) -> (r: Result<(), ParseError>)
    ensures
        match r {
            Ok(()) => token_effect(old(o)@, t@) == Ok::<BuildOptionsView, ParseError>(final(o)@),
            Err(e) => token_effect(old(o)@, t@) == Err::<BuildOptionsView, ParseError>(e)
                && final(o)@ == old(o)@,
        },
{
    if apply_top_flag(o, t) {
        return Ok(());
    }
    if apply_cargo_flag(o, t) {
        return Ok(());
    }
    if apply_move_flag(o, t) {
        return Ok(());
    }
    apply_value_token(o, t)
}

/// Applies a sanitizer flag value to the configuration being built.
#[verifier::rlimit(50)]
fn apply_sanitizer(o: &mut BuildOptions, v: &String) -> (r: Result<(), ParseError>)
    ensures
        match r {
            Ok(()) => sanitizer_effect(old(o)@, v@) == Ok::<BuildOptionsView, ParseError>(
                final(o)@,
            ),
            Err(e) => sanitizer_effect(old(o)@, v@) == Err::<BuildOptionsView, ParseError>(e)
                && final(o)@ == old(o)@,
        },
{
    if str_eq(v.as_str(), "address") {
        o.cargo_options.sanitizer = Sanitizer::Address;
        Ok(())
    } else if str_eq(v.as_str(), "leak") {
        o.cargo_options.sanitizer = Sanitizer::Leak;
        Ok(())
    } else if str_eq(v.as_str(), "memory") {
        o.cargo_options.sanitizer = Sanitizer::Memory;
        Ok(())
    } else if str_eq(v.as_str(), "thread") {
        o.cargo_options.sanitizer = Sanitizer::Thread;
        Ok(())
    } else if str_eq(v.as_str(), "none") {
        o.cargo_options.sanitizer = Sanitizer::NoSanitizer;
        Ok(())
    } else {
        Err(ParseError::MalformedValue)
    }
}

impl BuildOptions {
    /// Parses a stream of flag tokens into a configuration, starting from
    /// the all-defaults configuration for the given host-native target
    /// triple. Fails with `Conflict` when mutually exclusive flags are
    /// both present, `MalformedValue` when a value-bearing flag has a
    /// missing or ill-typed value, and `UnrecognizedFlag` on an unknown
    /// token.
    pub fn parse(tokens: &Vec<String>, default_triple: &str) -> (r: Result<
        BuildOptions,
        ParseError,
    >)
        ensures
            match r {
                Ok(o) => parse_outcome(all_views(tokens@), default_triple@) == Ok::<
                    BuildOptionsView,
                    ParseError,
                >(o@),
                Err(e) => parse_outcome(all_views(tokens@), default_triple@) == Err::<
                    BuildOptionsView,
                    ParseError,
                >(e),
            },
    {
        let ghost toks = all_views(tokens@);
        let mut o = BuildOptions::default_with_triple(default_triple);
        let mut i: usize = 0;
        while i < tokens.len()
            invariant
                i <= tokens@.len(),
                toks == all_views(tokens@),
                toks.len() == tokens@.len(),
                forall|j: int| 0 <= j < toks.len() ==> toks[j] == #[trigger] tokens@[j]@,
                stream_effect(default_build_options(default_triple@), toks.take(i as int)) == Ok::<
                    BuildOptionsView,
                    ParseError,
                >(o@),
            decreases tokens@.len() - i,
        {
            let t = &tokens[i];
            let step = apply_token(&mut o, t.as_str());
            proof {
                assert(toks.take(i + 1).drop_last() =~= toks.take(i as int));
                assert(toks.take(i + 1).last() == toks[i as int]);
            }
            match step {
                Ok(()) => {},
                Err(e) => {
                    proof {
                        lemma_stream_effect_err(
                            default_build_options(default_triple@),
                            toks,
                            i as int,
                            e,
                        );
                    }
                    return Err(e);
                },
            }
            i = i + 1;
        }
        proof {
            assert(toks.take(toks.len() as int) =~= toks);
        }
        if o.dev && o.cargo_options.release {
            return Err(ParseError::Conflict);
        }
        if o.cargo_options.all_features && o.cargo_options.no_default_features {
            return Err(ParseError::Conflict);
        }
        if o.cargo_options.all_features && o.cargo_options.features.is_some() {
            return Err(ParseError::Conflict);
        }
        Ok(o)
    }
}

/// A stream whose prefix applies cleanly and whose next token is rejected
/// is rejected as a whole, with that token's error.
proof fn lemma_stream_effect_err(
    st: BuildOptionsView,
    toks: Seq<Seq<char>>,
    i: int,
    e: ParseError,
)
    requires
        0 <= i < toks.len(),
        stream_effect(st, toks.take(i)) matches Ok(m) && token_effect(m, toks[i]) == Err::<
            BuildOptionsView,
            ParseError,
        >(e),
    ensures
        stream_effect(st, toks) == Err::<BuildOptionsView, ParseError>(e),
    decreases toks.len() - i,
{
    assert(toks.take(i + 1).drop_last() =~= toks.take(i));
    assert(toks.take(i + 1).last() == toks[i]);
    if i + 1 == toks.len() {
        assert(toks.take(i + 1) =~= toks);
    } else {
        lemma_stream_effect_prefix_err(st, toks, i + 1, e);
    }
}

/// A stream whose prefix is rejected is rejected as a whole, with the
/// same error.
proof fn lemma_stream_effect_prefix_err(
    st: BuildOptionsView,
    toks: Seq<Seq<char>>,
    i: int,
    e: ParseError,
)
    requires
        0 <= i <= toks.len(),
        stream_effect(st, toks.take(i)) == Err::<BuildOptionsView, ParseError>(e),
    ensures
        stream_effect(st, toks) == Err::<BuildOptionsView, ParseError>(e),
    decreases toks.len() - i,
{
    if i == toks.len() {
        assert(toks.take(i) =~= toks);
    } else {
        assert(toks.take(i + 1).drop_last() =~= toks.take(i));
        lemma_stream_effect_prefix_err(st, toks, i + 1, e);
    }
}

/// The effect of one token on the fuzz-directory wrapper.
pub open spec fn fuzz_token_effect(st: FuzzDirView, t: Seq<char>) -> Result<
    FuzzDirView,
    ParseError,
> {
    if t == "--fuzz-dir"@ {
        Err(ParseError::MalformedValue)
    } else if has_prefix(t, "--fuzz-dir="@) {
        Ok(FuzzDirView { fuzz_dir: Some(t.skip("--fuzz-dir="@.len() as int)) })
    } else {
        Err(ParseError::UnrecognizedFlag)
    }
}

/// The effect of a whole token stream on the fuzz-directory wrapper.
pub open spec fn fuzz_stream_effect(st: FuzzDirView, toks: Seq<Seq<char>>) -> Result<
    FuzzDirView,
    ParseError,
>
    decreases toks.len(),
{
    if toks.len() == 0 {
        Ok(st)
    } else {
        match fuzz_stream_effect(st, toks.drop_last()) {
            Ok(m) => fuzz_token_effect(m, toks.last()),
            Err(e) => Err(e),
        }
    }
}

impl FuzzDirWrapper {
    /// Parses a stream of flag tokens into the wrapper, starting from the
    /// unset state.
    pub fn parse(tokens: &Vec<String>) -> (r: Result<FuzzDirWrapper, ParseError>)
        ensures
            match r {
                Ok(w) => fuzz_stream_effect(FuzzDirView { fuzz_dir: None }, all_views(tokens@))
                    == Ok::<FuzzDirView, ParseError>(w@),
                Err(e) => fuzz_stream_effect(FuzzDirView { fuzz_dir: None }, all_views(tokens@))
                    == Err::<FuzzDirView, ParseError>(e),
            },
    {
        let ghost toks = all_views(tokens@);
        let mut w = FuzzDirWrapper { fuzz_dir: None };
        let mut i: usize = 0;
        while i < tokens.len()
            invariant
                i <= tokens@.len(),
                toks == all_views(tokens@),
                toks.len() == tokens@.len(),
                forall|j: int| 0 <= j < toks.len() ==> toks[j] == #[trigger] tokens@[j]@,
                fuzz_stream_effect(FuzzDirView { fuzz_dir: None }, toks.take(i as int)) == Ok::<
                    FuzzDirView,
                    ParseError,
                >(w@),
            decreases tokens@.len() - i,
        {
            let t = &tokens[i];
            proof {
                assert(toks.take(i + 1).drop_last() =~= toks.take(i as int));
                assert(toks.take(i + 1).last() == toks[i as int]);
            }
            if str_eq(t.as_str(), "--fuzz-dir") {
                proof {
                    lemma_fuzz_stream_effect_err(toks, i as int, ParseError::MalformedValue);
                }
                return Err(ParseError::MalformedValue);
            }
            if let Some(rest) = strip_prefix(t.as_str(), "--fuzz-dir=") {
                w.fuzz_dir = Some(rest);
            } else {
                proof {
                    lemma_fuzz_stream_effect_err(toks, i as int, ParseError::UnrecognizedFlag);
                }
                return Err(ParseError::UnrecognizedFlag);
            }
            i = i + 1;
        }
        proof {
            assert(toks.take(toks.len() as int) =~= toks);
        }
        Ok(w)
    }
}

/// A wrapper stream whose prefix applies cleanly and whose next token is
/// rejected is rejected as a whole, with that token's error.
proof fn lemma_fuzz_stream_effect_err(toks: Seq<Seq<char>>, i: int, e: ParseError)
    requires
        0 <= i < toks.len(),
        fuzz_stream_effect(FuzzDirView { fuzz_dir: None }, toks.take(i)) matches Ok(m)
            && fuzz_token_effect(m, toks[i]) == Err::<FuzzDirView, ParseError>(e),
    ensures
        fuzz_stream_effect(FuzzDirView { fuzz_dir: None }, toks) == Err::<FuzzDirView, ParseError>(
            e,
        ),
    decreases toks.len() - i,
{
    let st = FuzzDirView { fuzz_dir: None };
    assert(toks.take(i + 1).drop_last() =~= toks.take(i));
    assert(toks.take(i + 1).last() == toks[i]);
    if i + 1 == toks.len() {
        assert(toks.take(i + 1) =~= toks);
    } else {
        lemma_fuzz_stream_effect_err_rec(st, toks, i + 1, e);
    }
}

/// A wrapper stream whose prefix is rejected is rejected as a whole.
proof fn lemma_fuzz_stream_effect_err_rec(st: FuzzDirView, toks: Seq<Seq<char>>, i: int, e: ParseError)
    requires
        0 <= i <= toks.len(),
        fuzz_stream_effect(st, toks.take(i)) == Err::<FuzzDirView, ParseError>(e),
    ensures
        fuzz_stream_effect(st, toks) == Err::<FuzzDirView, ParseError>(e),
    decreases toks.len() - i,
{
    if i == toks.len() {
        assert(toks.take(i) =~= toks);
    } else {
        assert(toks.take(i + 1).drop_last() =~= toks.take(i));
        lemma_fuzz_stream_effect_err_rec(st, toks, i + 1, e);
    }
}

} // verus!
