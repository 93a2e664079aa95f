use aptos_wasm::artifacts::{BuildOptions, IncludedArtifacts, IncludedArtifactsArgs};

fn levels() -> Vec<IncludedArtifacts> {
    vec![
        IncludedArtifacts::NoArtifacts,
        IncludedArtifacts::Sparse,
        IncludedArtifacts::All,
    ]
}

#[test]
fn error_map_always_on_for_every_level() {
    for level in levels() {
        let opts = level.build_options(false, Vec::new(), 5);
        assert!(opts.with_error_map);
    }
}

#[test]
fn artifact_flag_triples_match_policy() {
    let no = IncludedArtifacts::NoArtifacts.build_options(false, Vec::new(), 5);
    assert_eq!(
        (no.with_srcs, no.with_abis, no.with_source_maps),
        (false, false, false)
    );
    let sparse = IncludedArtifacts::Sparse.build_options(false, Vec::new(), 5);
    assert_eq!(
        (sparse.with_srcs, sparse.with_abis, sparse.with_source_maps),
        (true, false, false)
    );
    let all = IncludedArtifacts::All.build_options(false, Vec::new(), 5);
    assert_eq!(
        (all.with_srcs, all.with_abis, all.with_source_maps),
        (true, true, true)
    );
}

#[test]
fn build_options_pass_through_fields() {
    let opts = IncludedArtifacts::Sparse.build_options(true, Vec::new(), 7);
    assert!(opts.skip_fetch_latest_git_deps);
    assert_eq!(opts.bytecode_version, Some(7));
    assert!(opts.install_dir.is_none());
    assert!(opts.named_addresses.is_empty());
}

#[test]
fn artifact_level_round_trips_through_text() {
    for level in levels() {
        let rendered = level.as_str();
        let parsed = IncludedArtifacts::from_str(rendered).unwrap();
        assert_eq!(parsed, level);
    }
    assert_eq!(IncludedArtifacts::NoArtifacts.as_str(), "none");
    assert_eq!(IncludedArtifacts::Sparse.as_str(), "sparse");
    assert_eq!(IncludedArtifacts::All.as_str(), "all");
}

#[test]
fn artifact_level_rejects_unknown_variants() {
    assert_eq!(IncludedArtifacts::from_str("full"), Err("unknown variant"));
    assert_eq!(IncludedArtifacts::from_str("None"), Err("unknown variant"));
    assert_eq!(IncludedArtifacts::from_str(""), Err("unknown variant"));
}

#[test]
fn default_artifact_choice_is_sparse() {
    let args = IncludedArtifactsArgs::default();
    assert_eq!(args.included_artifacts, IncludedArtifacts::Sparse);
}

#[test]
fn default_build_options_are_neutral() {
    let opts = BuildOptions::default();
    assert!(!opts.with_srcs);
    assert!(!opts.with_abis);
    assert!(!opts.with_source_maps);
    assert!(!opts.with_error_map);
    assert!(opts.install_dir.is_none());
    assert!(!opts.skip_fetch_latest_git_deps);
    assert!(opts.bytecode_version.is_none());
}
