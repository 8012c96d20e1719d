//! The configuration data model: sanitizer modes, the per-layer option
//! structs, and their mathematical views.

use vstd::prelude::*;
use vstd::string::StringExecFns;
use crate::text::{all_views, opt_view};

verus! {

/// Sanitizer modes supported by the build. `Address` is the implicit
/// default: it is never emitted in serialized form, and its absence in a
/// flag stream means `Address`. `None` is an explicit, user-chosen absence
/// of sanitization and must be emitted (`--sanitizer=none`) to round-trip
/// distinctly from the implicit default.
#[derive(Copy, Clone, Debug, Eq, PartialEq, Structural)]
pub enum Sanitizer {
    Address,
    Leak,
    Memory,
    Thread,
    NoSanitizer,
}

/// The canonical lowercase name of a sanitizer, as used in flag values.
/// The explicit-`None` variant has the empty string as its name; it is
/// never emitted through this name (serialization emits the literal value
/// `none` for it instead).
pub open spec fn sanitizer_name(s: Sanitizer) -> Seq<char> {
    match s {
        Sanitizer::Address => "address"@,
        Sanitizer::Leak => "leak"@,
        Sanitizer::Memory => "memory"@,
        Sanitizer::Thread => "thread"@,
        Sanitizer::NoSanitizer => Seq::<char>::empty(),
    }
}

impl Sanitizer {
    /// The canonical textual name of this sanitizer mode, or the empty
    /// string for the explicit-`None` variant.
    pub fn display(&self) -> (r: String)
        ensures
            r@ == sanitizer_name(*self),
    {
        proof {
            reveal_strlit("");
        }
        match self {
            Sanitizer::Address => String::from_str("address"),
            Sanitizer::Leak => String::from_str("leak"),
            Sanitizer::Memory => String::from_str("memory"),
            Sanitizer::Thread => String::from_str("thread"),
            Sanitizer::NoSanitizer => String::from_str(""),
        }
    }
}

/// Whether the build driver is asked to build or only to type-check.
#[derive(Copy, Clone, Debug, Eq, PartialEq, Structural)]
pub enum BuildMode {
    Build,
    Check,
}

/// Mathematical view of [`MoveBuildOptions`].
#[verifier::ext_equal]
pub ghost struct MoveOptionsView {
    pub bytecode_version: Option<u32>,
    pub fetch_deps_only: bool,
    pub force: bool,
    pub skip_fetch_latest_git_deps: bool,
}

/// Mathematical view of [`CargoBuildOptions`]: strings become character
/// sequences, the unstable-flag vector an ordered sequence of them.
#[verifier::ext_equal]
pub ghost struct CargoOptionsView {
    pub release: bool,
    pub debug_assertions: bool,
    pub no_default_features: bool,
    pub all_features: bool,
    pub features: Option<Seq<char>>,
    pub sanitizer: Sanitizer,
    pub build_std: bool,
    pub careful_mode: bool,
    pub triple: Seq<char>,
    pub unstable_flags: Seq<Seq<char>>,
    pub coverage: bool,
    pub strip_dead_code: bool,
    pub no_cfg_fuzzing: bool,
    pub no_trace_compares: bool,
}

/// Mathematical view of [`BuildOptions`].
#[verifier::ext_equal]
pub ghost struct BuildOptionsView {
    pub dev: bool,
    pub verbose: bool,
    pub target_dir: Option<Seq<char>>,
    pub move_options: MoveOptionsView,
    pub cargo_options: CargoOptionsView,
}

/// Mathematical view of [`FuzzDirWrapper`].
#[verifier::ext_equal]
pub ghost struct FuzzDirView {
    pub fuzz_dir: Option<Seq<char>>,
}

/// Options specific to the Move compiler front end.
#[derive(Clone, Debug, Eq)]
pub struct MoveBuildOptions {
    /// Bytecode version to compile move code
    pub bytecode_version: Option<u32>,
    /// Only fetch dependency repos to MOVE_HOME
    pub fetch_deps_only: bool,
    /// Force recompilation of all packages
    pub force: bool,
    /// Skip fetching latest git dependencies
    pub skip_fetch_latest_git_deps: bool,
}

/// Options specific to the underlying native build driver.
#[derive(Clone, Debug, Eq)]
pub struct CargoBuildOptions {
    /// Build artifacts in release mode, with optimizations
    pub release: bool,
    /// Build artifacts with debug assertions and overflow checks enabled
    pub debug_assertions: bool,
    /// Build artifacts with default Cargo features disabled
    pub no_default_features: bool,
    /// Build artifacts with all Cargo features enabled
    pub all_features: bool,
    /// Build artifacts with given Cargo feature enabled
    pub features: Option<String>,
    /// Use a specific sanitizer
    pub sanitizer: Sanitizer,
    /// Build the standard library with all the build settings for the fuzz
    /// target, including debug assertions, and a sanitizer if requested
    pub build_std: bool,
    /// Enable "careful" mode: build the harness along with the standard
    /// library with debug assertions and extra const UB and init checks
    pub careful_mode: bool,
    /// Target triple of the fuzz target
    pub triple: String,
    /// Unstable (nightly-only) flags to the build driver, order-preserving
    pub unstable_flags: Vec<String>,
    /// Instrument program code with source-based code coverage information.
    /// Not offered on the user-facing flag surface, but serialized and
    /// parsed for internal re-invocation.
    pub coverage: bool,
    /// Dead code is linked by default; this flag opts out of it
    pub strip_dead_code: bool,
    /// The 'cfg(fuzzing)' compilation configuration is set by default;
    /// this flag opts out of it
    pub no_cfg_fuzzing: bool,
    /// Don't build with the comparison-tracing instrumentation
    pub no_trace_compares: bool,
}

/// The aggregate build configuration: Move options, native build driver
/// options, and the orthogonal top-level flags.
#[derive(Clone, Debug, Eq)]
pub struct BuildOptions {
    /// Build artifacts in development mode, without optimizations
    pub dev: bool,
    /// Build target with verbose output from the build driver
    pub verbose: bool,
    /// Target dir option to pass to the build driver
    pub target_dir: Option<String>,
    /// Move-specific build options
    pub move_options: MoveBuildOptions,
    /// Build-driver-specific build options
    pub cargo_options: CargoBuildOptions,
}

/// A single optional path locating the fuzz project directory.
#[derive(Clone, Debug, Eq)]
pub struct FuzzDirWrapper {
    /// The path to the fuzz project directory.
    pub fuzz_dir: Option<String>,
}

impl View for MoveBuildOptions {
    type V = MoveOptionsView;

    open spec fn view(&self) -> MoveOptionsView {
        MoveOptionsView {
            bytecode_version: self.bytecode_version,
            fetch_deps_only: self.fetch_deps_only,
            force: self.force,
            skip_fetch_latest_git_deps: self.skip_fetch_latest_git_deps,
        }
    }
}

impl View for CargoBuildOptions {
    type V = CargoOptionsView;

    open spec fn view(&self) -> CargoOptionsView {
        CargoOptionsView {
            release: self.release,
            debug_assertions: self.debug_assertions,
            no_default_features: self.no_default_features,
            all_features: self.all_features,
            features: opt_view(self.features),
            sanitizer: self.sanitizer,
            build_std: self.build_std,
            careful_mode: self.careful_mode,
            triple: self.triple@,
            unstable_flags: all_views(self.unstable_flags@),
            coverage: self.coverage,
            strip_dead_code: self.strip_dead_code,
            no_cfg_fuzzing: self.no_cfg_fuzzing,
            no_trace_compares: self.no_trace_compares,
        }
    }
}

impl View for BuildOptions {
    type V = BuildOptionsView;

    open spec fn view(&self) -> BuildOptionsView {
        BuildOptionsView {
            dev: self.dev,
            verbose: self.verbose,
            target_dir: opt_view(self.target_dir),
            move_options: self.move_options@,
            cargo_options: self.cargo_options@,
        }
    }
}

impl View for FuzzDirWrapper {
    type V = FuzzDirView;

    open spec fn view(&self) -> FuzzDirView {
        FuzzDirView { fuzz_dir: opt_view(self.fuzz_dir) }
    }
}

/// The all-defaults Move options: nothing set.
pub open spec fn default_move_options() -> MoveOptionsView {
    MoveOptionsView {
        bytecode_version: None,
        fetch_deps_only: false,
        force: false,
        skip_fetch_latest_git_deps: false,
    }
}

/// The all-defaults native build options, relative to the host-native
/// target triple `default_triple`: every flag off, sanitizer `Address`,
/// the triple equal to the host-native one.
pub open spec fn default_cargo_options(default_triple: Seq<char>) -> CargoOptionsView {
    CargoOptionsView {
        release: false,
        debug_assertions: false,
        no_default_features: false,
        all_features: false,
        features: None,
        sanitizer: Sanitizer::Address,
        build_std: false,
        careful_mode: false,
        triple: default_triple,
        unstable_flags: Seq::empty(),
        coverage: false,
        strip_dead_code: false,
        no_cfg_fuzzing: false,
        no_trace_compares: false,
    }
}

/// The all-defaults build configuration, relative to the host-native
/// target triple `default_triple`.
pub open spec fn default_build_options(default_triple: Seq<char>) -> BuildOptionsView {
    BuildOptionsView {
        dev: false,
        verbose: false,
        target_dir: None,
        move_options: default_move_options(),
        cargo_options: default_cargo_options(default_triple),
    }
}

/// The mutual-exclusion invariants of a build configuration: `dev` and
/// `release` exclude each other, and `all_features` excludes both
/// `no_default_features` and an explicit feature selection.
pub open spec fn valid_build_options(o: BuildOptionsView) -> bool {
    &&& !(o.dev && o.cargo_options.release)
    &&& !(o.cargo_options.all_features && o.cargo_options.no_default_features)
    &&& !(o.cargo_options.all_features && o.cargo_options.features is Some)
}

/// Equality of optional strings, stated over views.
fn eq_opt_string(a: &Option<String>, b: &Option<String>) -> (r: bool)
    ensures
        r == (opt_view(*a) == opt_view(*b)),
{
    match (a, b) {
        (Some(x), Some(y)) => *x == *y,
        (None, None) => true,
        _ => false,
    }
}

/// Equality of optional unsigned integers.
fn eq_opt_u32(a: &Option<u32>, b: &Option<u32>) -> (r: bool)
    ensures
        r == (*a == *b),
{
    match (a, b) {
        (Some(x), Some(y)) => *x == *y,
        (None, None) => true,
        _ => false,
    }
}

/// Equality of string vectors, stated over the sequence of views.
fn eq_vec_string(a: &Vec<String>, b: &Vec<String>) -> (r: bool)
    ensures
        r == (all_views(a@) == all_views(b@)),
{
    proof {
        assert(all_views(a@).len() == a@.len());
        assert(all_views(b@).len() == b@.len());
    }
    if a.len() != b.len() {
        return false;
    }
    let n = a.len();
    let mut i: usize = 0;
    while i < n
        invariant
            n == a@.len(),
            n == b@.len(),
            i <= n,
            forall|j: int| 0 <= j < i ==> a@[j]@ == b@[j]@,
        decreases n - i,
    {
        if !(a[i] == b[i]) {
            proof {
                assert(all_views(a@)[i as int] != all_views(b@)[i as int]);
            }
            return false;
        }
        i = i + 1;
    }
    proof {
        assert(all_views(a@) =~= all_views(b@));
    }
    true
}

impl PartialEq for MoveBuildOptions {
    fn eq(&self, other: &Self) -> (r: bool) {
        eq_opt_u32(&self.bytecode_version, &other.bytecode_version)
            && self.fetch_deps_only == other.fetch_deps_only && self.force == other.force
            && self.skip_fetch_latest_git_deps == other.skip_fetch_latest_git_deps
    }
}

impl vstd::std_specs::cmp::PartialEqSpecImpl for MoveBuildOptions {
    open spec fn obeys_eq_spec() -> bool {
        true
    }

    open spec fn eq_spec(&self, other: &Self) -> bool {
        self@ == other@
    }
}

impl PartialEq for CargoBuildOptions {
    fn eq(&self, other: &Self) -> (r: bool) {
        let r = self.release == other.release && self.debug_assertions == other.debug_assertions
            && self.no_default_features == other.no_default_features
            && self.all_features == other.all_features
            && eq_opt_string(&self.features, &other.features)
            && self.sanitizer == other.sanitizer && self.build_std == other.build_std
            && self.careful_mode == other.careful_mode && self.triple == other.triple
            && eq_vec_string(&self.unstable_flags, &other.unstable_flags)
            && self.coverage == other.coverage && self.strip_dead_code == other.strip_dead_code
            && self.no_cfg_fuzzing == other.no_cfg_fuzzing
            && self.no_trace_compares == other.no_trace_compares;
        proof {
            if r {
                assert(self@ =~~= other@);
            }
        }
        r
    }
}

impl vstd::std_specs::cmp::PartialEqSpecImpl for CargoBuildOptions {
    open spec fn obeys_eq_spec() -> bool {
        true
    }

    open spec fn eq_spec(&self, other: &Self) -> bool {
        self@ == other@
    }
}

impl PartialEq for BuildOptions {
    fn eq(&self, other: &Self) -> (r: bool) {
        let r = self.dev == other.dev && self.verbose == other.verbose
            && eq_opt_string(&self.target_dir, &other.target_dir)
            && self.move_options == other.move_options
            && self.cargo_options == other.cargo_options;
        proof {
            if r {
                assert(self@ =~~= other@);
            }
        }
        r
    }
}

impl vstd::std_specs::cmp::PartialEqSpecImpl for BuildOptions {
    open spec fn obeys_eq_spec() -> bool {
        true
    }

    open spec fn eq_spec(&self, other: &Self) -> bool {
        self@ == other@
    }
}

impl PartialEq for FuzzDirWrapper {
    fn eq(&self, other: &Self) -> (r: bool) {
        eq_opt_string(&self.fuzz_dir, &other.fuzz_dir)
    }
}

impl vstd::std_specs::cmp::PartialEqSpecImpl for FuzzDirWrapper {
    open spec fn obeys_eq_spec() -> bool {
        true
    }

    open spec fn eq_spec(&self, other: &Self) -> bool {
        self@ == other@
    }
}

impl BuildOptions {
    /// The all-defaults configuration, given the host-native target triple.
    pub fn default_with_triple(default_triple: &str) -> (r: BuildOptions)
        ensures
            r@ == default_build_options(default_triple@),
    {
        let r = BuildOptions {
            dev: false,
            verbose: false,
            target_dir: None,
            move_options: MoveBuildOptions {
                bytecode_version: None,
                fetch_deps_only: false,
                force: false,
                skip_fetch_latest_git_deps: false,
            },
            cargo_options: CargoBuildOptions {
                release: false,
                debug_assertions: false,
                no_default_features: false,
                all_features: false,
                features: None,
                sanitizer: Sanitizer::Address,
                build_std: false,
                careful_mode: false,
                triple: String::from_str(default_triple),
                unstable_flags: Vec::new(),
                coverage: false,
                strip_dead_code: false,
                no_cfg_fuzzing: false,
                no_trace_compares: false,
            },
        };
        proof {
            assert(all_views(r.cargo_options.unstable_flags@) =~= Seq::<Seq<char>>::empty());
            assert(r@ =~~= default_build_options(default_triple@));
        }
        r
    }
}

} // verus!
