//! The laws relating serialization and parsing: round-trip fidelity,
//! default omission, the sanitizer asymmetry, mutual-exclusion
//! enforcement, triple omission, and order preservation of repeated
//! flags.

use vstd::prelude::*;
use crate::options::{
    BuildOptionsView, CargoOptionsView, FuzzDirView, MoveOptionsView, Sanitizer,
    default_build_options, default_cargo_options, default_move_options, sanitizer_name,
    valid_build_options,
};
use crate::parse::{
    ParseError, cargo_flag_effect, fuzz_stream_effect, fuzz_token_effect, has_conflict,
    move_flag_effect, parse_outcome, sanitizer_effect, stream_effect, token_effect,
    top_flag_effect, value_token_effect,
};
use crate::serialize::{
    build_tokens, bytecode_seg, cargo_front_tokens, cargo_tokens, cargo_toggle_tokens, flag_seg,
    fuzz_dir_tokens, move_tokens, sanitizer_seg, target_seg, unstable_seg, value_seg,
};
use crate::text::{dec_rep, dec_val, has_prefix, lemma_dec_rep_val};

verus! {

/// A stream splits: applying `a + b` is applying `a`, then `b`.
proof fn lemma_stream_concat(st: BuildOptionsView, a: Seq<Seq<char>>, b: Seq<Seq<char>>)
    ensures
        stream_effect(st, a + b) == (match stream_effect(st, a) {
            Ok(m) => stream_effect(m, b),
            Err(e) => Err(e),
        }),
    decreases b.len(),
{
    if b.len() == 0 {
        assert(a + b =~= a);
    } else {
        assert((a + b).drop_last() =~= a + b.drop_last());
        assert((a + b).last() == b.last());
        lemma_stream_concat(st, a, b.drop_last());
    }
}

/// A one-token stream has that token's effect.
proof fn lemma_stream_one(st: BuildOptionsView, t: Seq<char>)
    ensures
        stream_effect(st, seq![t]) == token_effect(st, t),
{
    assert(seq![t].drop_last() =~= Seq::<Seq<char>>::empty());
    assert(seq![t].last() == t);
    assert(stream_effect(st, Seq::<Seq<char>>::empty()) == Ok::<BuildOptionsView, ParseError>(st));
}

/// A differing character refutes a prefix.
proof fn lemma_not_prefix(s: Seq<char>, p: Seq<char>, i: int)
    requires
        0 <= i < p.len(),
        i < s.len(),
        s[i] != p[i],
    ensures
        !has_prefix(s, p),
{
    if p.len() <= s.len() {
        assert(s.subrange(0, p.len() as int)[i] == s[i]);
    }
}


/// Ground facts about the flag literals: their lengths and leading
/// characters, enough to tell any two flags apart.
proof fn flag_literal_facts()
    ensures
        ("-D"@).len() == 2,
        ("-D"@)[0] == '-',
        ("-D"@)[1] == 'D',
        ("--dev"@).len() == 5,
        ("--dev"@)[0] == '-',
        ("--dev"@)[1] == '-',
        ("--dev"@)[2] == 'd',
        ("--dev"@)[3] == 'e',
        ("--dev"@)[4] == 'v',
        ("-v"@).len() == 2,
        ("-v"@)[0] == '-',
        ("-v"@)[1] == 'v',
        ("--verbose"@).len() == 9,
        ("--verbose"@)[0] == '-',
        ("--verbose"@)[1] == '-',
        ("--verbose"@)[2] == 'v',
        ("--verbose"@)[3] == 'e',
        ("--verbose"@)[4] == 'r',
        ("--verbose"@)[5] == 'b',
        ("--verbose"@)[6] == 'o',
        ("--verbose"@)[7] == 's',
        ("--verbose"@)[8] == 'e',
        ("-O"@).len() == 2,
        ("-O"@)[0] == '-',
        ("-O"@)[1] == 'O',
        ("--release"@).len() == 9,
        ("--release"@)[0] == '-',
        ("--release"@)[1] == '-',
        ("--release"@)[2] == 'r',
        ("--release"@)[3] == 'e',
        ("--release"@)[4] == 'l',
        ("--release"@)[5] == 'e',
        ("--release"@)[6] == 'a',
        ("--release"@)[7] == 's',
        ("--release"@)[8] == 'e',
        ("-a"@).len() == 2,
        ("-a"@)[0] == '-',
        ("-a"@)[1] == 'a',
        ("--debug-assertions"@).len() == 18,
        ("--debug-assertions"@)[0] == '-',
        ("--debug-assertions"@)[1] == '-',
        ("--debug-assertions"@)[2] == 'd',
        ("--debug-assertions"@)[3] == 'e',
        ("--debug-assertions"@)[4] == 'b',
        ("--debug-assertions"@)[5] == 'u',
        ("--debug-assertions"@)[6] == 'g',
        ("--debug-assertions"@)[7] == '-',
        ("--debug-assertions"@)[8] == 'a',
        ("--no-default-features"@).len() == 21,
        ("--no-default-features"@)[0] == '-',
        ("--no-default-features"@)[1] == '-',
        ("--no-default-features"@)[2] == 'n',
        ("--no-default-features"@)[3] == 'o',
        ("--no-default-features"@)[4] == '-',
        ("--no-default-features"@)[5] == 'd',
        ("--no-default-features"@)[6] == 'e',
        ("--no-default-features"@)[7] == 'f',
        ("--no-default-features"@)[8] == 'a',
        ("--all-features"@).len() == 14,
        ("--all-features"@)[0] == '-',
        ("--all-features"@)[1] == '-',
        ("--all-features"@)[2] == 'a',
        ("--all-features"@)[3] == 'l',
        ("--all-features"@)[4] == 'l',
        ("--all-features"@)[5] == '-',
        ("--all-features"@)[6] == 'f',
        ("--all-features"@)[7] == 'e',
        ("--all-features"@)[8] == 'a',
        ("--build-std"@).len() == 11,
        ("--build-std"@)[0] == '-',
        ("--build-std"@)[1] == '-',
        ("--build-std"@)[2] == 'b',
        ("--build-std"@)[3] == 'u',
        ("--build-std"@)[4] == 'i',
        ("--build-std"@)[5] == 'l',
        ("--build-std"@)[6] == 'd',
        ("--build-std"@)[7] == '-',
        ("--build-std"@)[8] == 's',
        ("-c"@).len() == 2,
        ("-c"@)[0] == '-',
        ("-c"@)[1] == 'c',
        ("--careful"@).len() == 9,
        ("--careful"@)[0] == '-',
        ("--careful"@)[1] == '-',
        ("--careful"@)[2] == 'c',
        ("--careful"@)[3] == 'a',
        ("--careful"@)[4] == 'r',
        ("--careful"@)[5] == 'e',
        ("--careful"@)[6] == 'f',
        ("--careful"@)[7] == 'u',
        ("--careful"@)[8] == 'l',
        ("--coverage"@).len() == 10,
        ("--coverage"@)[0] == '-',
        ("--coverage"@)[1] == '-',
        ("--coverage"@)[2] == 'c',
        ("--coverage"@)[3] == 'o',
        ("--coverage"@)[4] == 'v',
        ("--coverage"@)[5] == 'e',
        ("--coverage"@)[6] == 'r',
        ("--coverage"@)[7] == 'a',
        ("--coverage"@)[8] == 'g',
        ("--strip-dead-code"@).len() == 17,
        ("--strip-dead-code"@)[0] == '-',
        ("--strip-dead-code"@)[1] == '-',
        ("--strip-dead-code"@)[2] == 's',
        ("--strip-dead-code"@)[3] == 't',
        ("--strip-dead-code"@)[4] == 'r',
        ("--strip-dead-code"@)[5] == 'i',
        ("--strip-dead-code"@)[6] == 'p',
        ("--strip-dead-code"@)[7] == '-',
        ("--strip-dead-code"@)[8] == 'd',
        ("--no-cfg-fuzzing"@).len() == 16,
        ("--no-cfg-fuzzing"@)[0] == '-',
        ("--no-cfg-fuzzing"@)[1] == '-',
        ("--no-cfg-fuzzing"@)[2] == 'n',
        ("--no-cfg-fuzzing"@)[3] == 'o',
        ("--no-cfg-fuzzing"@)[4] == '-',
        ("--no-cfg-fuzzing"@)[5] == 'c',
        ("--no-cfg-fuzzing"@)[6] == 'f',
        ("--no-cfg-fuzzing"@)[7] == 'g',
        ("--no-cfg-fuzzing"@)[8] == '-',
        ("--no-trace-compares"@).len() == 19,
        ("--no-trace-compares"@)[0] == '-',
        ("--no-trace-compares"@)[1] == '-',
        ("--no-trace-compares"@)[2] == 'n',
        ("--no-trace-compares"@)[3] == 'o',
        ("--no-trace-compares"@)[4] == '-',
        ("--no-trace-compares"@)[5] == 't',
        ("--no-trace-compares"@)[6] == 'r',
        ("--no-trace-compares"@)[7] == 'a',
        ("--no-trace-compares"@)[8] == 'c',
        ("--fetch-deps-only"@).len() == 17,
        ("--fetch-deps-only"@)[0] == '-',
        ("--fetch-deps-only"@)[1] == '-',
        ("--fetch-deps-only"@)[2] == 'f',
        ("--fetch-deps-only"@)[3] == 'e',
        ("--fetch-deps-only"@)[4] == 't',
        ("--fetch-deps-only"@)[5] == 'c',
        ("--fetch-deps-only"@)[6] == 'h',
        ("--fetch-deps-only"@)[7] == '-',
        ("--fetch-deps-only"@)[8] == 'd',
        ("--force"@).len() == 7,
        ("--force"@)[0] == '-',
        ("--force"@)[1] == '-',
        ("--force"@)[2] == 'f',
        ("--force"@)[3] == 'o',
        ("--force"@)[4] == 'r',
        ("--force"@)[5] == 'c',
        ("--force"@)[6] == 'e',
        ("--skip-fetch-latest-git-deps"@).len() == 28,
        ("--skip-fetch-latest-git-deps"@)[0] == '-',
        ("--skip-fetch-latest-git-deps"@)[1] == '-',
        ("--skip-fetch-latest-git-deps"@)[2] == 's',
        ("--skip-fetch-latest-git-deps"@)[3] == 'k',
        ("--skip-fetch-latest-git-deps"@)[4] == 'i',
        ("--skip-fetch-latest-git-deps"@)[5] == 'p',
        ("--skip-fetch-latest-git-deps"@)[6] == '-',
        ("--skip-fetch-latest-git-deps"@)[7] == 'f',
        ("--skip-fetch-latest-git-deps"@)[8] == 'e',
        ("--target-dir"@).len() == 12,
        ("--target-dir"@)[0] == '-',
        ("--target-dir"@)[1] == '-',
        ("--target-dir"@)[2] == 't',
        ("--target-dir"@)[3] == 'a',
        ("--target-dir"@)[4] == 'r',
        ("--target-dir"@)[5] == 'g',
        ("--target-dir"@)[6] == 'e',
        ("--target-dir"@)[7] == 't',
        ("--target-dir"@)[8] == '-',
        ("--features"@).len() == 10,
        ("--features"@)[0] == '-',
        ("--features"@)[1] == '-',
        ("--features"@)[2] == 'f',
        ("--features"@)[3] == 'e',
        ("--features"@)[4] == 'a',
        ("--features"@)[5] == 't',
        ("--features"@)[6] == 'u',
        ("--features"@)[7] == 'r',
        ("--features"@)[8] == 'e',
        ("--sanitizer"@).len() == 11,
        ("--sanitizer"@)[0] == '-',
        ("--sanitizer"@)[1] == '-',
        ("--sanitizer"@)[2] == 's',
        ("--sanitizer"@)[3] == 'a',
        ("--sanitizer"@)[4] == 'n',
        ("--sanitizer"@)[5] == 'i',
        ("--sanitizer"@)[6] == 't',
        ("--sanitizer"@)[7] == 'i',
        ("--sanitizer"@)[8] == 'z',
        ("-s"@).len() == 2,
        ("-s"@)[0] == '-',
        ("-s"@)[1] == 's',
        ("--target"@).len() == 8,
        ("--target"@)[0] == '-',
        ("--target"@)[1] == '-',
        ("--target"@)[2] == 't',
        ("--target"@)[3] == 'a',
        ("--target"@)[4] == 'r',
        ("--target"@)[5] == 'g',
        ("--target"@)[6] == 'e',
        ("--target"@)[7] == 't',
        ("--bytecode-version"@).len() == 18,
        ("--bytecode-version"@)[0] == '-',
        ("--bytecode-version"@)[1] == '-',
        ("--bytecode-version"@)[2] == 'b',
        ("--bytecode-version"@)[3] == 'y',
        ("--bytecode-version"@)[4] == 't',
        ("--bytecode-version"@)[5] == 'e',
        ("--bytecode-version"@)[6] == 'c',
        ("--bytecode-version"@)[7] == 'o',
        ("--bytecode-version"@)[8] == 'd',
        ("--target-dir="@).len() == 13,
        ("--target-dir="@)[0] == '-',
        ("--target-dir="@)[1] == '-',
        ("--target-dir="@)[2] == 't',
        ("--target-dir="@)[3] == 'a',
        ("--target-dir="@)[4] == 'r',
        ("--target-dir="@)[5] == 'g',
        ("--target-dir="@)[6] == 'e',
        ("--target-dir="@)[7] == 't',
        ("--target-dir="@)[8] == '-',
        ("--features="@).len() == 11,
        ("--features="@)[0] == '-',
        ("--features="@)[1] == '-',
        ("--features="@)[2] == 'f',
        ("--features="@)[3] == 'e',
        ("--features="@)[4] == 'a',
        ("--features="@)[5] == 't',
        ("--features="@)[6] == 'u',
        ("--features="@)[7] == 'r',
        ("--features="@)[8] == 'e',
        ("--sanitizer="@).len() == 12,
        ("--sanitizer="@)[0] == '-',
        ("--sanitizer="@)[1] == '-',
        ("--sanitizer="@)[2] == 's',
        ("--sanitizer="@)[3] == 'a',
        ("--sanitizer="@)[4] == 'n',
        ("--sanitizer="@)[5] == 'i',
        ("--sanitizer="@)[6] == 't',
        ("--sanitizer="@)[7] == 'i',
        ("--sanitizer="@)[8] == 'z',
        ("-s="@).len() == 3,
        ("-s="@)[0] == '-',
        ("-s="@)[1] == 's',
        ("-s="@)[2] == '=',
        ("--target="@).len() == 9,
        ("--target="@)[0] == '-',
        ("--target="@)[1] == '-',
        ("--target="@)[2] == 't',
        ("--target="@)[3] == 'a',
        ("--target="@)[4] == 'r',
        ("--target="@)[5] == 'g',
        ("--target="@)[6] == 'e',
        ("--target="@)[7] == 't',
        ("--target="@)[8] == '=',
        ("--bytecode-version="@).len() == 19,
        ("--bytecode-version="@)[0] == '-',
        ("--bytecode-version="@)[1] == '-',
        ("--bytecode-version="@)[2] == 'b',
        ("--bytecode-version="@)[3] == 'y',
        ("--bytecode-version="@)[4] == 't',
        ("--bytecode-version="@)[5] == 'e',
        ("--bytecode-version="@)[6] == 'c',
        ("--bytecode-version="@)[7] == 'o',
        ("--bytecode-version="@)[8] == 'd',
        ("-Z"@).len() == 2,
        ("-Z"@)[0] == '-',
        ("-Z"@)[1] == 'Z',
        ("address"@).len() == 7,
        ("address"@)[0] == 'a',
        ("address"@)[1] == 'd',
        ("address"@)[2] == 'd',
        ("address"@)[3] == 'r',
        ("address"@)[4] == 'e',
        ("address"@)[5] == 's',
        ("address"@)[6] == 's',
        ("leak"@).len() == 4,
        ("leak"@)[0] == 'l',
        ("leak"@)[1] == 'e',
        ("leak"@)[2] == 'a',
        ("leak"@)[3] == 'k',
        ("memory"@).len() == 6,
        ("memory"@)[0] == 'm',
        ("memory"@)[1] == 'e',
        ("memory"@)[2] == 'm',
        ("memory"@)[3] == 'o',
        ("memory"@)[4] == 'r',
        ("memory"@)[5] == 'y',
        ("thread"@).len() == 6,
        ("thread"@)[0] == 't',
        ("thread"@)[1] == 'h',
        ("thread"@)[2] == 'r',
        ("thread"@)[3] == 'e',
        ("thread"@)[4] == 'a',
        ("thread"@)[5] == 'd',
        ("none"@).len() == 4,
        ("none"@)[0] == 'n',
        ("none"@)[1] == 'o',
        ("none"@)[2] == 'n',
        ("none"@)[3] == 'e',
        ("--sanitizer=none"@).len() == 16,
        ("--sanitizer=none"@)[0] == '-',
        ("--sanitizer=none"@)[1] == '-',
        ("--sanitizer=none"@)[2] == 's',
        ("--sanitizer=none"@)[3] == 'a',
        ("--sanitizer=none"@)[4] == 'n',
        ("--sanitizer=none"@)[5] == 'i',
        ("--sanitizer=none"@)[6] == 't',
        ("--sanitizer=none"@)[7] == 'i',
        ("--sanitizer=none"@)[8] == 'z',
        ("--fuzz-dir"@).len() == 10,
        ("--fuzz-dir"@)[0] == '-',
        ("--fuzz-dir"@)[1] == '-',
        ("--fuzz-dir"@)[2] == 'f',
        ("--fuzz-dir"@)[3] == 'u',
        ("--fuzz-dir"@)[4] == 'z',
        ("--fuzz-dir"@)[5] == 'z',
        ("--fuzz-dir"@)[6] == '-',
        ("--fuzz-dir"@)[7] == 'd',
        ("--fuzz-dir"@)[8] == 'i',
        ("--fuzz-dir="@).len() == 11,
        ("--fuzz-dir="@)[0] == '-',
        ("--fuzz-dir="@)[1] == '-',
        ("--fuzz-dir="@)[2] == 'f',
        ("--fuzz-dir="@)[3] == 'u',
        ("--fuzz-dir="@)[4] == 'z',
        ("--fuzz-dir="@)[5] == 'z',
        ("--fuzz-dir="@)[6] == '-',
        ("--fuzz-dir="@)[7] == 'd',
        ("--fuzz-dir="@)[8] == 'i',
{
    reveal_strlit("-D");
    reveal_strlit("--dev");
    reveal_strlit("-v");
    reveal_strlit("--verbose");
    reveal_strlit("-O");
    reveal_strlit("--release");
    reveal_strlit("-a");
    reveal_strlit("--debug-assertions");
    reveal_strlit("--no-default-features");
    reveal_strlit("--all-features");
    reveal_strlit("--build-std");
    reveal_strlit("-c");
    reveal_strlit("--careful");
    reveal_strlit("--coverage");
    reveal_strlit("--strip-dead-code");
    reveal_strlit("--no-cfg-fuzzing");
    reveal_strlit("--no-trace-compares");
    reveal_strlit("--fetch-deps-only");
    reveal_strlit("--force");
    reveal_strlit("--skip-fetch-latest-git-deps");
    reveal_strlit("--target-dir");
    reveal_strlit("--features");
    reveal_strlit("--sanitizer");
    reveal_strlit("-s");
    reveal_strlit("--target");
    reveal_strlit("--bytecode-version");
    reveal_strlit("--target-dir=");
    reveal_strlit("--features=");
    reveal_strlit("--sanitizer=");
    reveal_strlit("-s=");
    reveal_strlit("--target=");
    reveal_strlit("--bytecode-version=");
    reveal_strlit("-Z");
    reveal_strlit("address");
    reveal_strlit("leak");
    reveal_strlit("memory");
    reveal_strlit("thread");
    reveal_strlit("none");
    reveal_strlit("--sanitizer=none");
    reveal_strlit("--fuzz-dir");
    reveal_strlit("--fuzz-dir=");
}

/// The effect of the `-D` token, at any state.
#[verifier::rlimit(50)]
proof fn lemma_effect_dev(st: BuildOptionsView)
    ensures
        token_effect(st, "-D"@) == Ok::<BuildOptionsView, ParseError>(
            BuildOptionsView { dev: true, ..st },
        ),
{
    reveal(top_flag_effect);
    reveal(cargo_flag_effect);
    reveal(move_flag_effect);
    flag_literal_facts();
}

/// The effect of the `-v` token, at any state.
#[verifier::rlimit(50)]
proof fn lemma_effect_verbose(st: BuildOptionsView)
    ensures
        token_effect(st, "-v"@) == Ok::<BuildOptionsView, ParseError>(
            BuildOptionsView { verbose: true, ..st },
        ),
{
    reveal(top_flag_effect);
    reveal(cargo_flag_effect);
    reveal(move_flag_effect);
    flag_literal_facts();
}

/// The effect of the `-O` token, at any state.
#[verifier::rlimit(50)]
proof fn lemma_effect_release(st: BuildOptionsView)
    ensures
        token_effect(st, "-O"@) == Ok::<BuildOptionsView, ParseError>(
            BuildOptionsView {
                cargo_options: CargoOptionsView { release: true, ..st.cargo_options },
                ..st
            },
        ),
{
    reveal(top_flag_effect);
    reveal(cargo_flag_effect);
    reveal(move_flag_effect);
    flag_literal_facts();
}

/// The effect of the `--no-default-features` token, at any state.
#[verifier::rlimit(50)]
proof fn lemma_effect_no_default_features(st: BuildOptionsView)
    ensures
        token_effect(st, "--no-default-features"@) == Ok::<BuildOptionsView, ParseError>(
            BuildOptionsView {
                cargo_options: CargoOptionsView { no_default_features: true, ..st.cargo_options },
                ..st
            },
        ),
{
    reveal(top_flag_effect);
    reveal(cargo_flag_effect);
    reveal(move_flag_effect);
    flag_literal_facts();
}

/// The effect of the `--all-features` token, at any state.
#[verifier::rlimit(50)]
proof fn lemma_effect_all_features(st: BuildOptionsView)
    ensures
        token_effect(st, "--all-features"@) == Ok::<BuildOptionsView, ParseError>(
            BuildOptionsView {
                cargo_options: CargoOptionsView { all_features: true, ..st.cargo_options },
                ..st
            },
        ),
{
    reveal(top_flag_effect);
    reveal(cargo_flag_effect);
    reveal(move_flag_effect);
    flag_literal_facts();
}

/// The effect of the `--build-std` token, at any state.
#[verifier::rlimit(50)]
proof fn lemma_effect_build_std(st: BuildOptionsView)
    ensures
        token_effect(st, "--build-std"@) == Ok::<BuildOptionsView, ParseError>(
            BuildOptionsView {
                cargo_options: CargoOptionsView { build_std: true, ..st.cargo_options },
                ..st
            },
        ),
{
    reveal(top_flag_effect);
    reveal(cargo_flag_effect);
    reveal(move_flag_effect);
    flag_literal_facts();
}

/// The effect of the `--careful` token, at any state.
#[verifier::rlimit(50)]
proof fn lemma_effect_careful(st: BuildOptionsView)
    ensures
        token_effect(st, "--careful"@) == Ok::<BuildOptionsView, ParseError>(
            BuildOptionsView {
                cargo_options: CargoOptionsView { careful_mode: true, ..st.cargo_options },
                ..st
            },
        ),
{
    reveal(top_flag_effect);
    reveal(cargo_flag_effect);
    reveal(move_flag_effect);
    flag_literal_facts();
}

/// The effect of the `--coverage` token, at any state.
#[verifier::rlimit(50)]
proof fn lemma_effect_coverage(st: BuildOptionsView)
    ensures
        token_effect(st, "--coverage"@) == Ok::<BuildOptionsView, ParseError>(
            BuildOptionsView {
                cargo_options: CargoOptionsView { coverage: true, ..st.cargo_options },
                ..st
            },
        ),
{
    reveal(top_flag_effect);
    reveal(cargo_flag_effect);
    reveal(move_flag_effect);
    flag_literal_facts();
}

/// The effect of the `--debug-assertions` token, at any state.
#[verifier::rlimit(50)]
proof fn lemma_effect_debug_assertions(st: BuildOptionsView)
    ensures
        token_effect(st, "--debug-assertions"@) == Ok::<BuildOptionsView, ParseError>(
            BuildOptionsView {
                cargo_options: CargoOptionsView { debug_assertions: true, ..st.cargo_options },
                ..st
            },
        ),
{
    reveal(top_flag_effect);
    reveal(cargo_flag_effect);
    reveal(move_flag_effect);
    flag_literal_facts();
}

/// The effect of the `--strip-dead-code` token, at any state.
#[verifier::rlimit(50)]
proof fn lemma_effect_strip_dead_code(st: BuildOptionsView)
    ensures
        token_effect(st, "--strip-dead-code"@) == Ok::<BuildOptionsView, ParseError>(
            BuildOptionsView {
                cargo_options: CargoOptionsView { strip_dead_code: true, ..st.cargo_options },
                ..st
            },
        ),
{
    reveal(top_flag_effect);
    reveal(cargo_flag_effect);
    reveal(move_flag_effect);
    flag_literal_facts();
}

/// The effect of the `--no-cfg-fuzzing` token, at any state.
#[verifier::rlimit(50)]
proof fn lemma_effect_no_cfg_fuzzing(st: BuildOptionsView)
    ensures
        token_effect(st, "--no-cfg-fuzzing"@) == Ok::<BuildOptionsView, ParseError>(
            BuildOptionsView {
                cargo_options: CargoOptionsView { no_cfg_fuzzing: true, ..st.cargo_options },
                ..st
            },
        ),
{
    reveal(top_flag_effect);
    reveal(cargo_flag_effect);
    reveal(move_flag_effect);
    flag_literal_facts();
}

/// The effect of the `--no-trace-compares` token, at any state.
#[verifier::rlimit(50)]
proof fn lemma_effect_no_trace_compares(st: BuildOptionsView)
    ensures
        token_effect(st, "--no-trace-compares"@) == Ok::<BuildOptionsView, ParseError>(
            BuildOptionsView {
                cargo_options: CargoOptionsView { no_trace_compares: true, ..st.cargo_options },
                ..st
            },
        ),
{
    reveal(top_flag_effect);
    reveal(cargo_flag_effect);
    reveal(move_flag_effect);
    flag_literal_facts();
}

/// The effect of the `--fetch-deps-only` token, at any state.
#[verifier::rlimit(50)]
proof fn lemma_effect_fetch_deps_only(st: BuildOptionsView)
    ensures
        token_effect(st, "--fetch-deps-only"@) == Ok::<BuildOptionsView, ParseError>(
            BuildOptionsView {
                move_options: MoveOptionsView { fetch_deps_only: true, ..st.move_options },
                ..st
            },
        ),
{
    reveal(top_flag_effect);
    reveal(cargo_flag_effect);
    reveal(move_flag_effect);
    flag_literal_facts();
}

/// The effect of the `--force` token, at any state.
#[verifier::rlimit(50)]
proof fn lemma_effect_force(st: BuildOptionsView)
    ensures
        token_effect(st, "--force"@) == Ok::<BuildOptionsView, ParseError>(
            BuildOptionsView {
                move_options: MoveOptionsView { force: true, ..st.move_options },
                ..st
            },
        ),
{
    reveal(top_flag_effect);
    reveal(cargo_flag_effect);
    reveal(move_flag_effect);
    flag_literal_facts();
}

/// The effect of the `--skip-fetch-latest-git-deps` token, at any state.
#[verifier::rlimit(50)]
proof fn lemma_effect_skip_fetch(st: BuildOptionsView)
    ensures
        token_effect(st, "--skip-fetch-latest-git-deps"@) == Ok::<BuildOptionsView, ParseError>(
            BuildOptionsView {
                move_options: MoveOptionsView { skip_fetch_latest_git_deps: true, ..st.move_options },
                ..st
            },
        ),
{
    reveal(top_flag_effect);
    reveal(cargo_flag_effect);
    reveal(move_flag_effect);
    flag_literal_facts();
}

/// The effect of the explicit sanitizer tokens, at any state.
#[verifier::rlimit(100)]
proof fn lemma_sanitizer_token_effects(st: BuildOptionsView)
    ensures
        token_effect(st, "--sanitizer=none"@) == Ok::<BuildOptionsView, ParseError>(
            BuildOptionsView {
                cargo_options: CargoOptionsView {
                    sanitizer: Sanitizer::NoSanitizer,
                    ..st.cargo_options
                },
                ..st
            },
        ),
        token_effect(st, "--sanitizer="@ + "leak"@) == Ok::<BuildOptionsView, ParseError>(
            BuildOptionsView {
                cargo_options: CargoOptionsView {
                    sanitizer: Sanitizer::Leak,
                    ..st.cargo_options
                },
                ..st
            },
        ),
        token_effect(st, "--sanitizer="@ + "memory"@) == Ok::<BuildOptionsView, ParseError>(
            BuildOptionsView {
                cargo_options: CargoOptionsView {
                    sanitizer: Sanitizer::Memory,
                    ..st.cargo_options
                },
                ..st
            },
        ),
        token_effect(st, "--sanitizer="@ + "thread"@) == Ok::<BuildOptionsView, ParseError>(
            BuildOptionsView {
                cargo_options: CargoOptionsView {
                    sanitizer: Sanitizer::Thread,
                    ..st.cargo_options
                },
                ..st
            },
        ),
{
    reveal(top_flag_effect);
    reveal(cargo_flag_effect);
    reveal(move_flag_effect);
    reveal(value_token_effect);
    flag_literal_facts();
    reveal_strlit("--sanitizer=none");
    reveal_strlit("--sanitizer=");
    reveal_strlit("none");
    reveal_strlit("leak");
    reveal_strlit("memory");
    reveal_strlit("thread");
    reveal_strlit("address");
    assert(("--sanitizer=none"@).subrange(0, 12) =~= "--sanitizer="@);
    assert(("--sanitizer=none"@).skip(12) =~= "none"@);
    assert forall|v: Seq<char>| true implies (("--sanitizer="@ + v).skip(12) =~= v) by {
        assert(("--sanitizer="@ + v).skip(12) =~= v);
    }
    assert(("--sanitizer="@ + "leak"@).subrange(0, 12) =~= "--sanitizer="@);
    assert(("--sanitizer="@ + "memory"@).subrange(0, 12) =~= "--sanitizer="@);
    assert(("--sanitizer="@ + "thread"@).subrange(0, 12) =~= "--sanitizer="@);
}


/// The effect of a `--target-dir=` token, at any state.
#[verifier::rlimit(100)]
proof fn lemma_target_dir_effect(st: BuildOptionsView, s: Seq<char>)
    ensures
        token_effect(st, "--target-dir="@ + s) == Ok::<BuildOptionsView, ParseError>(
            BuildOptionsView { target_dir: Some(s), ..st },
        ),
{
    reveal(top_flag_effect);
    reveal(cargo_flag_effect);
    reveal(move_flag_effect);
    reveal(value_token_effect);
    flag_literal_facts();
    let t = "--target-dir="@ + s;
    assert(t[1] == '-');
    assert(t[2] == 't');
    assert(t[8] == '-');
    assert(t.subrange(0, 13) =~= "--target-dir="@);
    assert(t.skip(13) =~= s);
}

/// The effect of a `--features=` token, at any state.
#[verifier::rlimit(100)]
proof fn lemma_features_effect(st: BuildOptionsView, s: Seq<char>)
    ensures
        token_effect(st, "--features="@ + s) == Ok::<BuildOptionsView, ParseError>(
            BuildOptionsView {
                cargo_options: CargoOptionsView { features: Some(s), ..st.cargo_options },
                ..st
            },
        ),
{
    reveal(top_flag_effect);
    reveal(cargo_flag_effect);
    reveal(move_flag_effect);
    reveal(value_token_effect);
    flag_literal_facts();
    let t = "--features="@ + s;
    assert(t[1] == '-');
    assert(t[2] == 'f');
    assert(t[3] == 'e');
    assert(t[4] == 'a');
    lemma_not_prefix(t, "--target-dir="@, 2);
    assert(t.subrange(0, 11) =~= "--features="@);
    assert(t.skip(11) =~= s);
}

/// The effect of a `--target=` token, at any state.
#[verifier::rlimit(100)]
proof fn lemma_target_effect(st: BuildOptionsView, s: Seq<char>)
    ensures
        token_effect(st, "--target="@ + s) == Ok::<BuildOptionsView, ParseError>(
            BuildOptionsView {
                cargo_options: CargoOptionsView { triple: s, ..st.cargo_options },
                ..st
            },
        ),
{
    reveal(top_flag_effect);
    reveal(cargo_flag_effect);
    reveal(move_flag_effect);
    reveal(value_token_effect);
    flag_literal_facts();
    let t = "--target="@ + s;
    assert(t[1] == '-');
    assert(t[2] == 't');
    assert(t[8] == '=');
    lemma_not_prefix(t, "--target-dir="@, 8);
    lemma_not_prefix(t, "--features="@, 2);
    lemma_not_prefix(t, "--sanitizer="@, 2);
    lemma_not_prefix(t, "-s="@, 1);
    assert(t.subrange(0, 9) =~= "--target="@);
    assert(t.skip(9) =~= s);
}

/// The effect of a `--bytecode-version=` token carrying the canonical
/// decimal rendering of `n`, at any state.
#[verifier::rlimit(100)]
proof fn lemma_bytecode_effect(st: BuildOptionsView, n: u32)
    ensures
        token_effect(st, "--bytecode-version="@ + dec_rep(n as nat)) == Ok::<
            BuildOptionsView,
            ParseError,
        >(
            BuildOptionsView {
                move_options: MoveOptionsView {
                    bytecode_version: Some(n),
                    ..st.move_options
                },
                ..st
            },
        ),
{
    reveal(top_flag_effect);
    reveal(cargo_flag_effect);
    reveal(move_flag_effect);
    reveal(value_token_effect);
    flag_literal_facts();
    lemma_dec_rep_val(n as nat);
    let t = "--bytecode-version="@ + dec_rep(n as nat);
    assert(t[1] == '-');
    assert(t[2] == 'b');
    lemma_not_prefix(t, "--target-dir="@, 2);
    lemma_not_prefix(t, "--features="@, 2);
    lemma_not_prefix(t, "--sanitizer="@, 2);
    lemma_not_prefix(t, "-s="@, 1);
    lemma_not_prefix(t, "--target="@, 2);
    assert(t.subrange(0, 19) =~= "--bytecode-version="@);
    assert(t.skip(19) =~= dec_rep(n as nat));
}

/// The effect of a `-Z` token, at any state.
#[verifier::rlimit(100)]
proof fn lemma_unstable_effect(st: BuildOptionsView, s: Seq<char>)
    ensures
        token_effect(st, "-Z"@ + s) == Ok::<BuildOptionsView, ParseError>(
            BuildOptionsView {
                cargo_options: CargoOptionsView {
                    unstable_flags: st.cargo_options.unstable_flags.push(s),
                    ..st.cargo_options
                },
                ..st
            },
        ),
{
    reveal(top_flag_effect);
    reveal(cargo_flag_effect);
    reveal(move_flag_effect);
    reveal(value_token_effect);
    flag_literal_facts();
    let t = "-Z"@ + s;
    assert(t[0] == '-');
    assert(t[1] == 'Z');
    lemma_not_prefix(t, "--target-dir="@, 1);
    lemma_not_prefix(t, "--features="@, 1);
    lemma_not_prefix(t, "--sanitizer="@, 1);
    lemma_not_prefix(t, "-s="@, 1);
    lemma_not_prefix(t, "--target="@, 1);
    lemma_not_prefix(t, "--bytecode-version="@, 1);
    assert(t.subrange(0, 2) =~= "-Z"@);
    assert(t.skip(2) =~= s);
}

/// Folding the unstable-flag tokens appends the flags, in order.
#[verifier::rlimit(100)]
proof fn lemma_unstable_fold(st: BuildOptionsView, fs: Seq<Seq<char>>)
    ensures
        stream_effect(st, unstable_seg(fs)) == Ok::<BuildOptionsView, ParseError>(
            BuildOptionsView {
                cargo_options: CargoOptionsView {
                    unstable_flags: st.cargo_options.unstable_flags + fs,
                    ..st.cargo_options
                },
                ..st
            },
        ),
    decreases fs.len(),
{
    if fs.len() == 0 {
        assert(unstable_seg(fs).len() == 0);
        assert(st.cargo_options.unstable_flags + fs =~= st.cargo_options.unstable_flags);
        assert(BuildOptionsView {
            cargo_options: CargoOptionsView {
                unstable_flags: st.cargo_options.unstable_flags + fs,
                ..st.cargo_options
            },
            ..st
        } =~= st);
    } else {
        assert(unstable_seg(fs).drop_last() =~= unstable_seg(fs.drop_last()));
        assert(unstable_seg(fs).last() == "-Z"@ + fs.last());
        lemma_unstable_fold(st, fs.drop_last());
        let m = BuildOptionsView {
            cargo_options: CargoOptionsView {
                unstable_flags: st.cargo_options.unstable_flags + fs.drop_last(),
                ..st.cargo_options
            },
            ..st
        };
        lemma_unstable_effect(m, fs.last());
        assert((st.cargo_options.unstable_flags + fs.drop_last()).push(fs.last())
            =~= st.cargo_options.unstable_flags + fs);
    }
}

/// Folding the Move-option tokens over a state with default Move options
/// recovers exactly those options.
proof fn lemma_move_fold(st: BuildOptionsView, m: MoveOptionsView)
    requires
        st.move_options == default_move_options(),
    ensures
        stream_effect(st, move_tokens(m)) == Ok::<BuildOptionsView, ParseError>(
            BuildOptionsView { move_options: m, ..st },
        ),
{
    let b = bytecode_seg(m.bytecode_version);
    let f1 = flag_seg(m.fetch_deps_only, "--fetch-deps-only"@);
    let f2 = flag_seg(m.force, "--force"@);
    let f3 = flag_seg(m.skip_fetch_latest_git_deps, "--skip-fetch-latest-git-deps"@);
    lemma_stream_concat(st, b + f1 + f2, f3);
    lemma_stream_concat(st, b + f1, f2);
    lemma_stream_concat(st, b, f1);
    let st1 = match m.bytecode_version {
        Some(n) => BuildOptionsView {
            move_options: MoveOptionsView { bytecode_version: Some(n), ..st.move_options },
            ..st
        },
        None => st,
    };
    match m.bytecode_version {
        Some(n) => {
            lemma_stream_one(st, "--bytecode-version="@ + dec_rep(n as nat));
            lemma_bytecode_effect(st, n);
            assert(stream_effect(st, b) == Ok::<BuildOptionsView, ParseError>(st1));
        },
        None => {
            assert(stream_effect(st, b) == Ok::<BuildOptionsView, ParseError>(st1));
        },
    }
    let st2 = if m.fetch_deps_only {
        BuildOptionsView {
            move_options: MoveOptionsView { fetch_deps_only: true, ..st1.move_options },
            ..st1
        }
    } else {
        st1
    };
    if m.fetch_deps_only {
        lemma_stream_one(st1, "--fetch-deps-only"@);
        lemma_effect_fetch_deps_only(st1);
        assert(stream_effect(st1, f1) == Ok::<BuildOptionsView, ParseError>(st2));
    } else {
        assert(stream_effect(st1, f1) == Ok::<BuildOptionsView, ParseError>(st2));
    }
    let st3 = if m.force {
        BuildOptionsView {
            move_options: MoveOptionsView { force: true, ..st2.move_options },
            ..st2
        }
    } else {
        st2
    };
    if m.force {
        lemma_stream_one(st2, "--force"@);
        lemma_effect_force(st2);
        assert(stream_effect(st2, f2) == Ok::<BuildOptionsView, ParseError>(st3));
    } else {
        assert(stream_effect(st2, f2) == Ok::<BuildOptionsView, ParseError>(st3));
    }
    let st4 = if m.skip_fetch_latest_git_deps {
        BuildOptionsView {
            move_options: MoveOptionsView {
                skip_fetch_latest_git_deps: true,
                ..st3.move_options
            },
            ..st3
        }
    } else {
        st3
    };
    if m.skip_fetch_latest_git_deps {
        lemma_stream_one(st3, "--skip-fetch-latest-git-deps"@);
        lemma_effect_skip_fetch(st3);
        assert(stream_effect(st3, f3) == Ok::<BuildOptionsView, ParseError>(st4));
    } else {
        assert(stream_effect(st3, f3) == Ok::<BuildOptionsView, ParseError>(st4));
    }
    assert(st4 =~= BuildOptionsView { move_options: m, ..st });
}


/// Folding the release and feature-selection tokens over a state with
/// those fields at their defaults recovers exactly the selected values.
#[verifier::rlimit(100)]
proof fn lemma_cargo_features_fold(st: BuildOptionsView, c: CargoOptionsView)
    requires
        st.cargo_options.release == false,
        st.cargo_options.no_default_features == false,
        st.cargo_options.all_features == false,
        st.cargo_options.features is None,
    ensures
        stream_effect(
            st,
            flag_seg(c.release, "-O"@) + flag_seg(c.no_default_features, "--no-default-features"@)
                + flag_seg(c.all_features, "--all-features"@) + value_seg(
                c.features,
                "--features="@,
            ),
        ) == Ok::<BuildOptionsView, ParseError>(
            BuildOptionsView {
                cargo_options: CargoOptionsView {
                    release: c.release,
                    no_default_features: c.no_default_features,
                    all_features: c.all_features,
                    features: c.features,
                    ..st.cargo_options
                },
                ..st
            },
        ),
{
    let g1 = flag_seg(c.release, "-O"@);
    let g2 = flag_seg(c.no_default_features, "--no-default-features"@);
    let g3 = flag_seg(c.all_features, "--all-features"@);
    let g4 = value_seg(c.features, "--features="@);
    lemma_stream_concat(st, g1 + g2 + g3, g4);
    lemma_stream_concat(st, g1 + g2, g3);
    lemma_stream_concat(st, g1, g2);
    let st1 = if c.release {
        BuildOptionsView {
            cargo_options: CargoOptionsView { release: true, ..st.cargo_options },
            ..st
        }
    } else {
        st
    };
    if c.release {
        lemma_stream_one(st, "-O"@);
        lemma_effect_release(st);
    }
    assert(stream_effect(st, g1) == Ok::<BuildOptionsView, ParseError>(st1));
    let st2 = if c.no_default_features {
        BuildOptionsView {
            cargo_options: CargoOptionsView { no_default_features: true, ..st1.cargo_options },
            ..st1
        }
    } else {
        st1
    };
    if c.no_default_features {
        lemma_stream_one(st1, "--no-default-features"@);
        lemma_effect_no_default_features(st1);
    }
    assert(stream_effect(st1, g2) == Ok::<BuildOptionsView, ParseError>(st2));
    let st3 = if c.all_features {
        BuildOptionsView {
            cargo_options: CargoOptionsView { all_features: true, ..st2.cargo_options },
            ..st2
        }
    } else {
        st2
    };
    if c.all_features {
        lemma_stream_one(st2, "--all-features"@);
        lemma_effect_all_features(st2);
    }
    assert(stream_effect(st2, g3) == Ok::<BuildOptionsView, ParseError>(st3));
    let st4 = match c.features {
        Some(f) => BuildOptionsView {
            cargo_options: CargoOptionsView { features: Some(f), ..st3.cargo_options },
            ..st3
        },
        None => st3,
    };
    match c.features {
        Some(f) => {
            lemma_stream_one(st3, "--features="@ + f);
            lemma_features_effect(st3, f);
        },
        None => {},
    }
    assert(stream_effect(st3, g4) == Ok::<BuildOptionsView, ParseError>(st4));
    assert(st4 =~= BuildOptionsView {
        cargo_options: CargoOptionsView {
            release: c.release,
            no_default_features: c.no_default_features,
            all_features: c.all_features,
            features: c.features,
            ..st.cargo_options
        },
        ..st
    });
}

} // verus!
