//! Serialization of the configuration into command-line flag tokens.
//!
//! A flag token is emitted only where the field's value differs from its
//! documented default: boolean fields emit a bare flag when true, optional
//! fields emit `--flag=value` when present, the sanitizer is omitted when
//! `Address` and emitted as `--sanitizer=none` when explicitly off, the
//! target triple is omitted when equal to the host-native default, and
//! each unstable flag becomes one `-Z<flag>` token in original order.

use vstd::prelude::*;
use vstd::string::StringExecFns;
use crate::options::{
    BuildOptions, BuildOptionsView, CargoBuildOptions, CargoOptionsView, FuzzDirView,
    FuzzDirWrapper, MoveBuildOptions, MoveOptionsView, Sanitizer, sanitizer_name,
};
use crate::text::{
    all_views, dec_rep, joined, lemma_all_views_push, opt_view, str_eq, u32_to_dec, join_flags,
};

verus! {

/// A bare boolean flag: one token when set, nothing when clear.
pub open spec fn flag_seg(b: bool, tok: Seq<char>) -> Seq<Seq<char>> {
    if b {
        seq![tok]
    } else {
        Seq::empty()
    }
}

/// An optional value flag: one `<prefix><value>` token when present.
pub open spec fn value_seg(v: Option<Seq<char>>, prefix: Seq<char>) -> Seq<Seq<char>> {
    match v {
        Some(s) => seq![prefix + s],
        None => Seq::empty(),
    }
}

/// The sanitizer tokens: nothing for the implicit default `Address`,
/// exactly `--sanitizer=none` for the explicit `NoSanitizer`, and
/// `--sanitizer=<name>` for the other modes.
pub open spec fn sanitizer_seg(s: Sanitizer) -> Seq<Seq<char>> {
    match s {
        Sanitizer::Address => Seq::empty(),
        Sanitizer::NoSanitizer => seq!["--sanitizer=none"@],
        _ => seq!["--sanitizer="@ + sanitizer_name(s)],
    }
}

/// The target-triple tokens: nothing when the triple equals the
/// host-native default, one `--target=<triple>` token otherwise.
pub open spec fn target_seg(triple: Seq<char>, default_triple: Seq<char>) -> Seq<Seq<char>> {
    if triple == default_triple {
        Seq::empty()
    } else {
        seq!["--target="@ + triple]
    }
}

/// One `-Z<flag>` token per unstable flag, preserving order.
pub open spec fn unstable_seg(fs: Seq<Seq<char>>) -> Seq<Seq<char>> {
    fs.map_values(|f: Seq<char>| "-Z"@ + f)
}

/// The bytecode-version tokens: one `--bytecode-version=<n>` token, with
/// the canonical decimal rendering of `n`, when a version is set.
pub open spec fn bytecode_seg(v: Option<u32>) -> Seq<Seq<char>> {
    match v {
        Some(n) => seq!["--bytecode-version="@ + dec_rep(n as nat)],
        None => Seq::empty(),
    }
}

/// All flag tokens of the Move-specific options, in serialization order.
pub open spec fn move_tokens(m: MoveOptionsView) -> Seq<Seq<char>> {
    bytecode_seg(m.bytecode_version) + flag_seg(m.fetch_deps_only, "--fetch-deps-only"@)
        + flag_seg(m.force, "--force"@) + flag_seg(
        m.skip_fetch_latest_git_deps,
        "--skip-fetch-latest-git-deps"@,
    )
}

/// The feature-selection tokens of the native build options: release
/// mode, feature flags, and the sanitizer choice.
pub open spec fn cargo_front_tokens(c: CargoOptionsView) -> Seq<Seq<char>> {
    flag_seg(c.release, "-O"@) + flag_seg(c.no_default_features, "--no-default-features"@)
        + flag_seg(c.all_features, "--all-features"@) + value_seg(c.features, "--features="@)
        + sanitizer_seg(c.sanitizer)
}

/// The plain toggle tokens of the native build options.
pub open spec fn cargo_toggle_tokens(c: CargoOptionsView) -> Seq<Seq<char>> {
    flag_seg(c.build_std, "--build-std"@) + flag_seg(c.careful_mode, "--careful"@) + flag_seg(
        c.coverage,
        "--coverage"@,
    ) + flag_seg(c.debug_assertions, "--debug-assertions"@) + flag_seg(
        c.strip_dead_code,
        "--strip-dead-code"@,
    ) + flag_seg(c.no_cfg_fuzzing, "--no-cfg-fuzzing"@) + flag_seg(
        c.no_trace_compares,
        "--no-trace-compares"@,
    )
}

/// All flag tokens of the native build options, in serialization order.
pub open spec fn cargo_tokens(c: CargoOptionsView, default_triple: Seq<char>) -> Seq<Seq<char>> {
    cargo_front_tokens(c) + cargo_toggle_tokens(c) + target_seg(c.triple, default_triple)
        + unstable_seg(c.unstable_flags)
}

/// All flag tokens of the aggregate configuration: Move options first,
/// then the native build options, then the top-level flags.
pub open spec fn build_tokens(o: BuildOptionsView, default_triple: Seq<char>) -> Seq<Seq<char>> {
    move_tokens(o.move_options) + cargo_tokens(o.cargo_options, default_triple) + flag_seg(
        o.dev,
        "-D"@,
    ) + flag_seg(o.verbose, "-v"@) + value_seg(o.target_dir, "--target-dir="@)
}

/// The fuzz-directory tokens: one `--fuzz-dir=<path>` token when present.
pub open spec fn fuzz_dir_tokens(w: FuzzDirView) -> Seq<Seq<char>> {
    value_seg(w.fuzz_dir, "--fuzz-dir="@)
}

/// Appends the token of a bare boolean flag, if it is set.
fn push_flag(r: &mut Vec<String>, b: bool, tok: &str)
    ensures
        all_views(final(r)@) == all_views(old(r)@) + flag_seg(b, tok@),
{
    if b {
        let t = String::from_str(tok);
        r.push(t);
        proof {
            lemma_all_views_push(old(r)@, t);
            assert(all_views(r@) =~= all_views(old(r)@) + flag_seg(b, tok@));
        }
    } else {
        proof {
            assert(all_views(r@) =~= all_views(old(r)@) + flag_seg(b, tok@));
        }
    }
}

/// Appends the token of an optional value flag, if the value is present.
fn push_value(r: &mut Vec<String>, v: &Option<String>, prefix: &str)
    ensures
        all_views(final(r)@) == all_views(old(r)@) + value_seg(opt_view(*v), prefix@),
{
    match v {
        Some(s) => {
            let tok = String::from_str(prefix).concat(s.as_str());
            r.push(tok);
            proof {
                lemma_all_views_push(old(r)@, tok);
                assert(all_views(r@) =~= all_views(old(r)@) + value_seg(opt_view(*v), prefix@));
            }
        },
        None => {
            proof {
                assert(all_views(r@) =~= all_views(old(r)@) + value_seg(opt_view(*v), prefix@));
            }
        },
    }
}

impl MoveBuildOptions {
    /// The flag tokens of these options, omitting every default value.
    pub fn serialize_tokens(&self) -> (r: Vec<String>)
        ensures
            all_views(r@) == move_tokens(self@),
    {
        let mut r: Vec<String> = Vec::new();
        proof {
            assert(all_views(r@) =~= Seq::<Seq<char>>::empty());
        }
        match &self.bytecode_version {
            Some(n) => {
                let tok = String::from_str("--bytecode-version=").concat(u32_to_dec(*n).as_str());
                r.push(tok);
                proof {
                    lemma_all_views_push(Seq::<String>::empty(), tok);
                    assert(all_views(r@) =~= bytecode_seg(self@.bytecode_version));
                }
            },
            None => {
                proof {
                    assert(all_views(r@) =~= bytecode_seg(self@.bytecode_version));
                }
            },
        }
        push_flag(&mut r, self.fetch_deps_only, "--fetch-deps-only");
        push_flag(&mut r, self.force, "--force");
        push_flag(&mut r, self.skip_fetch_latest_git_deps, "--skip-fetch-latest-git-deps");
        proof {
            assert(all_views(r@) == move_tokens(self@));
        }
        r
    }
}

impl CargoBuildOptions {
    /// The feature-selection tokens: release mode, feature flags, and
    /// the sanitizer choice.
    fn front_tokens(&self) -> (r: Vec<String>)
        ensures
            all_views(r@) == cargo_front_tokens(self@),
    {
        let mut r: Vec<String> = Vec::new();
        proof {
            assert(all_views(r@) =~= Seq::<Seq<char>>::empty());
        }
        push_flag(&mut r, self.release, "-O");
        proof {
            assert(Seq::<Seq<char>>::empty() + flag_seg(self@.release, "-O"@) =~= flag_seg(
                self@.release,
                "-O"@,
            ));
            assert(all_views(r@) == flag_seg(self@.release, "-O"@));
        }
        push_flag(&mut r, self.no_default_features, "--no-default-features");
        push_flag(&mut r, self.all_features, "--all-features");
        push_value(&mut r, &self.features, "--features=");
        let ghost before_san = all_views(r@);
        match self.sanitizer {
            Sanitizer::Address => {
                proof {
                    assert(all_views(r@) =~= before_san + sanitizer_seg(self.sanitizer));
                }
            },
            Sanitizer::NoSanitizer => {
                let tok = String::from_str("--sanitizer=none");
                let ghost prev = r@;
                r.push(tok);
                proof {
                    lemma_all_views_push(prev, tok);
                    assert(all_views(r@) =~= before_san + sanitizer_seg(self.sanitizer));
                }
            },
            _ => {
                let tok = String::from_str("--sanitizer=").concat(self.sanitizer.display().as_str());
                let ghost prev = r@;
                r.push(tok);
                proof {
                    lemma_all_views_push(prev, tok);
                    assert(all_views(r@) =~= before_san + sanitizer_seg(self.sanitizer));
                }
            },
        }
        proof {
            assert(all_views(r@) == cargo_front_tokens(self@));
        }
        r
    }

    /// Appends the plain toggle tokens.
    fn push_toggles(&self, r: &mut Vec<String>)
        ensures
            all_views(final(r)@) == all_views(old(r)@) + cargo_toggle_tokens(self@),
    {
        let ghost base = all_views(r@);
        push_flag(r, self.build_std, "--build-std");
        proof {
            assert(all_views(r@) == base + flag_seg(self@.build_std, "--build-std"@));
        }
        push_flag(r, self.careful_mode, "--careful");
        push_flag(r, self.coverage, "--coverage");
        push_flag(r, self.debug_assertions, "--debug-assertions");
        push_flag(r, self.strip_dead_code, "--strip-dead-code");
        push_flag(r, self.no_cfg_fuzzing, "--no-cfg-fuzzing");
        push_flag(r, self.no_trace_compares, "--no-trace-compares");
        proof {
            let f1 = flag_seg(self@.build_std, "--build-std"@);
            let f2 = flag_seg(self@.careful_mode, "--careful"@);
            let f3 = flag_seg(self@.coverage, "--coverage"@);
            let f4 = flag_seg(self@.debug_assertions, "--debug-assertions"@);
            let f5 = flag_seg(self@.strip_dead_code, "--strip-dead-code"@);
            let f6 = flag_seg(self@.no_cfg_fuzzing, "--no-cfg-fuzzing"@);
            let f7 = flag_seg(self@.no_trace_compares, "--no-trace-compares"@);
            vstd::seq_lib::lemma_concat_associative(base, f1, f2);
            vstd::seq_lib::lemma_concat_associative(base, f1 + f2, f3);
            vstd::seq_lib::lemma_concat_associative(base, f1 + f2 + f3, f4);
            vstd::seq_lib::lemma_concat_associative(base, f1 + f2 + f3 + f4, f5);
            vstd::seq_lib::lemma_concat_associative(base, f1 + f2 + f3 + f4 + f5, f6);
            vstd::seq_lib::lemma_concat_associative(base, f1 + f2 + f3 + f4 + f5 + f6, f7);
            assert(all_views(r@) == base + cargo_toggle_tokens(self@));
        }
    }

    /// Appends the target-triple token, when the triple is not the
    /// host-native default.
    fn push_target(&self, r: &mut Vec<String>, default_triple: &str)
        ensures
            all_views(final(r)@) == all_views(old(r)@) + target_seg(self@.triple, default_triple@),
    {
        if !str_eq(self.triple.as_str(), default_triple) {
            let tok = String::from_str("--target=").concat(self.triple.as_str());
            let ghost prev = r@;
            r.push(tok);
            proof {
                lemma_all_views_push(prev, tok);
                assert(all_views(r@) =~= all_views(old(r)@) + target_seg(
                    self@.triple,
                    default_triple@,
                ));
            }
        } else {
            proof {
                assert(all_views(r@) =~= all_views(old(r)@) + target_seg(
                    self@.triple,
                    default_triple@,
                ));
            }
        }
    }

    /// Appends one `-Z<flag>` token per unstable flag, in order.
    fn push_unstable(&self, r: &mut Vec<String>)
        ensures
            all_views(final(r)@) == all_views(old(r)@) + unstable_seg(self@.unstable_flags),
    {
        let ghost before_z = all_views(r@);
        let ghost zflags = self@.unstable_flags;
        let mut i: usize = 0;
        while i < self.unstable_flags.len()
            invariant
                i <= self.unstable_flags@.len(),
                zflags == self@.unstable_flags,
                zflags.len() == self.unstable_flags@.len(),
                forall|j: int|
                    0 <= j < zflags.len() ==> zflags[j] == #[trigger] self.unstable_flags@[j]@,
                all_views(r@) == before_z + unstable_seg(zflags.take(i as int)),
            decreases self.unstable_flags@.len() - i,
        {
            let tok = String::from_str("-Z").concat(self.unstable_flags[i].as_str());
            let ghost prev = r@;
            r.push(tok);
            proof {
                lemma_all_views_push(prev, tok);
                assert(tok@ == "-Z"@ + zflags[i as int]);
                assert(unstable_seg(zflags.take(i + 1)) =~= unstable_seg(
                    zflags.take(i as int),
                ).push("-Z"@ + zflags[i as int]));
                assert((before_z + unstable_seg(zflags.take(i as int))).push(tok@) =~= before_z
                    + unstable_seg(zflags.take(i as int)).push(tok@));
                assert(all_views(r@) =~= before_z + unstable_seg(zflags.take(i + 1)));
            }
            i = i + 1;
        }
        proof {
            assert(zflags.take(zflags.len() as int) =~= zflags);
        }
    }

    /// The flag tokens of these options relative to the host-native
    /// target triple, omitting every default value.
    pub fn serialize_tokens(&self, default_triple: &str) -> (r: Vec<String>)
        ensures
            all_views(r@) == cargo_tokens(self@, default_triple@),
    {
        let mut r = self.front_tokens();
        self.push_toggles(&mut r);
        self.push_target(&mut r, default_triple);
        self.push_unstable(&mut r);
        proof {
            assert(all_views(r@) == cargo_tokens(self@, default_triple@));
        }
        r
    }
}

impl BuildOptions {
    /// The flag tokens of the aggregate configuration relative to the
    /// host-native target triple: Move options, then native build
    /// options, then the top-level flags, each omitting defaults.
    pub fn serialize_tokens(&self, default_triple: &str) -> (r: Vec<String>)
        ensures
            all_views(r@) == build_tokens(self@, default_triple@),
    {
        let mut r = self.move_options.serialize_tokens();
        let mut cargo = self.cargo_options.serialize_tokens(default_triple);
        let ghost cargo_views = all_views(cargo@);
        let ghost move_views = all_views(r@);
        let mut j: usize = 0;
        while j < cargo.len()
            invariant
                j <= cargo@.len(),
                all_views(cargo@) == cargo_views,
                all_views(r@) == move_views + cargo_views.take(j as int),
            decreases cargo@.len() - j,
        {
            let tok = cargo[j].clone();
            let ghost prev = r@;
            r.push(tok);
            proof {
                lemma_all_views_push(prev, tok);
                assert(tok@ == cargo_views[j as int]);
                assert(cargo_views.take(j + 1) =~= cargo_views.take(j as int).push(
                    cargo_views[j as int],
                ));
                assert((move_views + cargo_views.take(j as int)).push(tok@) =~= move_views
                    + cargo_views.take(j as int).push(tok@));
                assert(all_views(r@) =~= move_views + cargo_views.take(j + 1));
            }
            j = j + 1;
        }
        proof {
            assert(cargo_views.take(cargo@.len() as int) =~= cargo_views);
            assert(all_views(r@) == move_tokens(self@.move_options) + cargo_tokens(
                self@.cargo_options,
                default_triple@,
            ));
        }
        push_flag(&mut r, self.dev, "-D");
        push_flag(&mut r, self.verbose, "-v");
        push_value(&mut r, &self.target_dir, "--target-dir=");
        proof {
            assert(all_views(r@) == build_tokens(self@, default_triple@));
        }
        r
    }

    /// The canonical flag string: the serialized tokens, a space before
    /// each. Serializing the all-defaults configuration yields the empty
    /// string.
    pub fn flags(&self, default_triple: &str) -> (r: String)
        ensures
            r@ == joined(build_tokens(self@, default_triple@)),
    {
        let toks = self.serialize_tokens(default_triple);
        join_flags(&toks)
    }
}

impl FuzzDirWrapper {
    /// The flag tokens of the wrapper: one `--fuzz-dir=<path>` token when
    /// the directory is set, nothing otherwise.
    pub fn serialize_tokens(&self) -> (r: Vec<String>)
        ensures
            all_views(r@) == fuzz_dir_tokens(self@),
    {
        let mut r: Vec<String> = Vec::new();
        proof {
            assert(all_views(r@) =~= Seq::<Seq<char>>::empty());
        }
        push_value(&mut r, &self.fuzz_dir, "--fuzz-dir=");
        proof {
            assert(Seq::<Seq<char>>::empty() + fuzz_dir_tokens(self@) =~= fuzz_dir_tokens(self@));
            assert(all_views(r@) == fuzz_dir_tokens(self@));
        }
        r
    }

    /// The canonical flag string of the wrapper.
    pub fn flags(&self) -> (r: String)
        ensures
            r@ == joined(fuzz_dir_tokens(self@)),
    {
        let toks = self.serialize_tokens();
        join_flags(&toks)
    }
}

} // verus!
