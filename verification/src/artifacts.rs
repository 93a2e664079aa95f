//! Artifact-inclusion policy: a three-tier user choice and the build
//! configuration derived from it.

use vstd::prelude::*;
use crate::address::AccountAddress;

verus! {

/// Which artifacts to include when building a package.
///
/// Ordered by increasing completeness and publication cost: `NoArtifacts`
/// is the bytecode alone, `Sparse` is the minimal set needed to reconstruct
/// a source package, `All` includes every available artifact.
#[derive(Clone, Copy, Debug, PartialEq, Eq, Structural)]
pub enum IncludedArtifacts {
    NoArtifacts,
    Sparse,
    All,
}

/// Carrier for the artifact choice, with `Sparse` as the default.
#[derive(Clone, Copy, Debug, PartialEq, Eq, Structural)]
pub struct IncludedArtifactsArgs {
    pub included_artifacts: IncludedArtifacts,
}

impl Default for IncludedArtifactsArgs {
    /// The default artifact choice is `Sparse`.
    fn default() -> (r: Self)
        ensures
            r.included_artifacts == IncludedArtifacts::Sparse,
    {
        IncludedArtifactsArgs { included_artifacts: IncludedArtifacts::Sparse }
    }
}

/// The detailed configuration handed to the external package builder.
///
/// Derived from an [`IncludedArtifacts`] level, never constructed directly
/// by the user: exactly one of the three level mappings produced it.
pub struct BuildOptions {
    pub with_srcs: bool,
    pub with_abis: bool,
    pub with_source_maps: bool,
    pub with_error_map: bool,
    pub named_addresses: Vec<(String, AccountAddress)>,
    pub install_dir: Option<String>,
    pub skip_fetch_latest_git_deps: bool,
    pub bytecode_version: Option<u32>,
}

impl Default for BuildOptions {
    /// A neutral configuration: every flag off, nothing resolved.
    fn default() -> (r: Self)
        ensures
            !r.with_srcs,
            !r.with_abis,
            !r.with_source_maps,
            !r.with_error_map,
            r.named_addresses@ == Seq::<(String, AccountAddress)>::empty(),
            r.install_dir is None,
            !r.skip_fetch_latest_git_deps,
            r.bytecode_version is None,
    {
        BuildOptions {
            with_srcs: false,
            with_abis: false,
            with_source_maps: false,
            with_error_map: false,
            named_addresses: Vec::new(),
            install_dir: None,
            skip_fetch_latest_git_deps: false,
            bytecode_version: None,
        }
    }
}

impl IncludedArtifacts {
    /// The lowercase literal this level renders to.
    pub open spec fn spec_as_str(self) -> Seq<char> {
        match self {
            IncludedArtifacts::NoArtifacts => "none"@,
            IncludedArtifacts::Sparse => "sparse"@,
            IncludedArtifacts::All => "all"@,
        }
    }

    /// Renders the level as its lowercase literal.
    pub fn as_str(self) -> (r: &'static str)
        ensures
            r@ == self.spec_as_str(),
    {
        match self {
            IncludedArtifacts::NoArtifacts => "none",
            IncludedArtifacts::Sparse => "sparse",
            IncludedArtifacts::All => "all",
        }
    }

    /// The level a lowercase literal parses to, if any.
    pub open spec fn spec_parse(s: Seq<char>) -> Option<IncludedArtifacts> {
        if s == "none"@ {
            Some(IncludedArtifacts::NoArtifacts)
        } else if s == "sparse"@ {
            Some(IncludedArtifacts::Sparse)
        } else if s == "all"@ {
            Some(IncludedArtifacts::All)
        } else {
            None
        }
    }

    /// Parses one of the literals `none`, `sparse`, `all`; any other input
    /// is rejected with the fixed diagnostic.
    pub fn from_str(s: &str) -> (r: Result<IncludedArtifacts, &'static str>)
        ensures
            r is Ok <==> Self::spec_parse(s@) is Some,
            r is Ok ==> Some(r->Ok_0) == Self::spec_parse(s@),
            r is Err ==> r->Err_0@ == "unknown variant"@,
    {
        let chars = crate::text::str_chars(s);
        if crate::text::chars_eq_str(&chars, "none") {
            Ok(IncludedArtifacts::NoArtifacts)
        } else if crate::text::chars_eq_str(&chars, "sparse") {
            Ok(IncludedArtifacts::Sparse)
        } else if crate::text::chars_eq_str(&chars, "all") {
            Ok(IncludedArtifacts::All)
        } else {
            Err("unknown variant")
        }
    }

    /// The (sources, interface descriptions, source maps, error map) flags
    /// this level derives.
    pub open spec fn spec_flags(self) -> (bool, bool, bool, bool) {
        match self {
            IncludedArtifacts::NoArtifacts => (false, false, false, true),
            IncludedArtifacts::Sparse => (true, false, false, true),
            IncludedArtifacts::All => (true, true, true, true),
        }
    }

    /// Derives the full build configuration for this artifact level.
    ///
    /// The error-map flag is pinned on in all three branches: error maps
    /// are cheap and always useful, independent of the artifact-size
    /// tradeoff the level communicates.
    pub fn build_options(
        self,
        skip_fetch_latest_git_deps: bool,
        named_addresses: Vec<(String, AccountAddress)>,
        bytecode_version: u32,
    ) -> (r: BuildOptions)
        ensures
            r.with_srcs == self.spec_flags().0,
            r.with_abis == self.spec_flags().1,
            r.with_source_maps == self.spec_flags().2,
            r.with_error_map == self.spec_flags().3,
            r.with_error_map,
            r.named_addresses == named_addresses,
            r.install_dir is None,
            r.skip_fetch_latest_git_deps == skip_fetch_latest_git_deps,
            r.bytecode_version == Some(bytecode_version),
    {
        match self {
            IncludedArtifacts::NoArtifacts => BuildOptions {
                with_srcs: false,
                with_abis: false,
                with_source_maps: false,
                // Always enable error map bytecode injection
                with_error_map: true,
                named_addresses,
                skip_fetch_latest_git_deps,
                bytecode_version: Some(bytecode_version),
                ..Default::default()
            },
            IncludedArtifacts::Sparse => BuildOptions {
                with_srcs: true,
                with_abis: false,
                with_source_maps: false,
                with_error_map: true,
                named_addresses,
                skip_fetch_latest_git_deps,
                bytecode_version: Some(bytecode_version),
                ..Default::default()
            },
            IncludedArtifacts::All => BuildOptions {
                with_srcs: true,
                with_abis: true,
                with_source_maps: true,
                with_error_map: true,
                named_addresses,
                skip_fetch_latest_git_deps,
                bytecode_version: Some(bytecode_version),
                ..Default::default()
            },
        }
    }
}

/// For every artifact level the derived configuration includes the error
/// map, and the (sources, interface descriptions, source maps) flags are
/// exactly (false, false, false), (true, false, false) and
/// (true, true, true) for `NoArtifacts`, `Sparse` and `All` respectively.
pub proof fn lemma_artifact_policy(level: IncludedArtifacts)
    ensures
        level.spec_flags().3,
        level is NoArtifacts ==> level.spec_flags() == (false, false, false, true),
        level is Sparse ==> level.spec_flags() == (true, false, false, true),
        level is All ==> level.spec_flags() == (true, true, true, true),
{
}

/// Parsing the rendering of an artifact level yields the level back:
/// `parse(render(level)) == level` for all three values.
pub proof fn lemma_artifact_level_round_trip(level: IncludedArtifacts)
    ensures
        IncludedArtifacts::spec_parse(level.spec_as_str()) == Some(level),
{
    reveal_strlit("none");
    reveal_strlit("sparse");
    reveal_strlit("all");
    assert("none"@.len() == 4);
    assert("sparse"@.len() == 6);
    assert("all"@.len() == 3);
}

} // verus!
