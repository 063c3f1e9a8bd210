use target_spec::Error;
use target_spec::CurrentTargetInfo;
use target_spec::Platform;
use target_spec::TargetFeatures;

fn owned(names: &[&str]) -> Vec<String> {
    let mut v: Vec<String> = Vec::new();
    for n in names {
        v.push((*n).to_string());
    }
    v
}

#[test]
fn builtin_platform_scenario() {
    let platform =
        Platform::new("x86_64-unknown-linux-gnu".to_string(), TargetFeatures::Unknown).unwrap();
    assert!(platform.is_standard());
    assert!(platform.is_builtin());
    assert!(!platform.is_heuristic());
    assert!(!platform.is_custom());
    assert_eq!(platform.triple_str(), "x86_64-unknown-linux-gnu");
    assert!(platform.triple().is_builtin());
    assert_eq!(platform.triple().as_str(), "x86_64-unknown-linux-gnu");
    assert_eq!(platform.target_features().matches("sse2"), None);
}

#[test]
fn heuristic_platform_scenario() {
    let platform =
        Platform::new("armv5te-apple-darwin".to_string(), TargetFeatures::Unknown).unwrap();
    assert!(platform.is_standard());
    assert!(platform.is_heuristic());
    assert!(!platform.is_builtin());
    let strict = Platform::new_strict("armv5te-apple-darwin".to_string(), TargetFeatures::Unknown);
    assert!(matches!(strict, Err(Error::UnknownPlatformTriple(t)) if t == "armv5te-apple-darwin"));
}

#[test]
fn strict_acceptance_implies_lenient_acceptance() {
    let triples = [
        "x86_64-unknown-linux-gnu",
        "aarch64-apple-darwin",
        "wasm32-unknown-unknown",
        "i686-pc-windows-msvc",
    ];
    for t in triples {
        let strict = Platform::new_strict(t.to_string(), TargetFeatures::Unknown).unwrap();
        assert!(strict.is_builtin());
        let lenient = Platform::new(t.to_string(), TargetFeatures::Unknown).unwrap();
        assert!(lenient.is_builtin());
    }
}

#[test]
fn unrecognized_triple_rejected_by_both() {
    let bad = ["", "quux", "not-a-triple-at-all", "x86_64", "fancy-new-machine"];
    for t in bad {
        let lenient = Platform::new(t.to_string(), TargetFeatures::Unknown);
        assert!(matches!(lenient, Err(Error::UnknownPlatformTriple(u)) if u == t));
        let strict = Platform::new_strict(t.to_string(), TargetFeatures::Unknown);
        assert!(matches!(strict, Err(Error::UnknownPlatformTriple(u)) if u == t));
    }
}

#[test]
fn flags_start_empty_and_register_additively() {
    let mut platform =
        Platform::new("x86_64-unknown-linux-gnu".to_string(), TargetFeatures::Unknown).unwrap();
    assert!(!platform.has_flag("cargo_web"));
    assert_eq!(platform.flags().len(), 0);
    platform.add_flags(owned(&["cargo_web"]));
    assert!(platform.has_flag("cargo_web"));
    assert_eq!(platform.flags().len(), 1);
    assert_eq!(platform.flags()[0], "cargo_web");
    assert!(!platform.has_flag("other"));
}

#[test]
fn add_flags_is_idempotent() {
    let mut once =
        Platform::new("x86_64-unknown-linux-gnu".to_string(), TargetFeatures::Unknown).unwrap();
    once.add_flags(owned(&["cargo_web", "test_flag"]));
    let mut twice = once.clone();
    twice.add_flags(owned(&["cargo_web", "test_flag"]));
    assert_eq!(once, twice);
    assert_eq!(once.flags(), twice.flags());
    assert!(twice.has_flag("cargo_web"));
    assert!(twice.has_flag("test_flag"));
    assert_eq!(twice.flags().len(), 2);
}

#[test]
fn flag_order_leaves_no_trace() {
    let mut ab =
        Platform::new("x86_64-unknown-linux-gnu".to_string(), TargetFeatures::Unknown).unwrap();
    ab.add_flags(owned(&["zeta", "alpha"]));
    ab.add_flags(owned(&["middle"]));
    let mut ba =
        Platform::new("x86_64-unknown-linux-gnu".to_string(), TargetFeatures::Unknown).unwrap();
    ba.add_flags(owned(&["middle", "zeta"]));
    ba.add_flags(owned(&["alpha"]));
    assert_eq!(ab, ba);
    let expected = owned(&["alpha", "middle", "zeta"]);
    assert_eq!(ab.flags(), &expected);
}

#[test]
fn platform_equality_breaks_on_any_part() {
    let base =
        Platform::new("x86_64-unknown-linux-gnu".to_string(), TargetFeatures::Unknown).unwrap();
    let same =
        Platform::new("x86_64-unknown-linux-gnu".to_string(), TargetFeatures::Unknown).unwrap();
    assert_eq!(base, same);

    let other_triple =
        Platform::new("aarch64-apple-darwin".to_string(), TargetFeatures::Unknown).unwrap();
    assert_ne!(base, other_triple);

    let other_features =
        Platform::new("x86_64-unknown-linux-gnu".to_string(), TargetFeatures::All).unwrap();
    assert_ne!(base, other_features);

    let mut other_flags = base.clone();
    other_flags.add_flags(owned(&["cargo_web"]));
    assert_ne!(base, other_flags);
}

#[test]
fn current_platform_from_detected_info() {
    let detected = CurrentTargetInfo {
        triple_str: "x86_64-unknown-linux-gnu".to_string(),
        features: owned(&["sse2", "avx", "sse2"]),
    };
    let platform = Platform::current(detected).unwrap();
    assert!(platform.is_standard());
    assert!(platform.is_builtin());
    assert_eq!(platform.target_features().matches("sse2"), Some(true));
    assert_eq!(platform.target_features().matches("avx"), Some(true));
    assert_eq!(platform.target_features().matches("neon"), Some(false));
    assert_eq!(platform.flags().len(), 0);

    let unknown = CurrentTargetInfo {
        triple_str: "mystery-machine".to_string(),
        features: Vec::new(),
    };
    let err = Platform::current(unknown);
    assert!(matches!(err, Err(Error::UnknownPlatformTriple(t)) if t == "mystery-machine"));
}

#[test]
fn current_platform_is_never_heuristic() {
    // The same string classifies heuristically through `new`, but the
    // current platform consults the builtin table alone.
    let lenient =
        Platform::new("armv5te-apple-darwin".to_string(), TargetFeatures::Unknown).unwrap();
    assert!(lenient.is_heuristic());
    let detected = CurrentTargetInfo {
        triple_str: "armv5te-apple-darwin".to_string(),
        features: Vec::new(),
    };
    let current = Platform::current(detected);
    assert!(matches!(current, Err(Error::UnknownPlatformTriple(t)) if t == "armv5te-apple-darwin"));
}

#[test]
fn custom_platform_scenario() {
    let json = "{\"llvm-target\": \"x86_64-unknown-none\", \"arch\": \"x86_64\"}";
    let platform = Platform::new_custom(
        "x86_64-mycompany-none".to_string(),
        json,
        TargetFeatures::none(),
    )
    .unwrap();
    assert!(platform.is_custom());
    assert!(!platform.is_standard());
    assert!(!platform.is_builtin());
    assert!(!platform.is_heuristic());
    assert_eq!(platform.triple_str(), "x86_64-mycompany-none");
    assert_eq!(platform.custom_json(), Some(json));
}

#[test]
fn malformed_custom_document_rejected() {
    let bad_docs = ["", "{", "}", "not json", "[1, 2]"];
    for doc in bad_docs {
        let r = Platform::new_custom(
            "x86_64-mycompany-none".to_string(),
            doc,
            TargetFeatures::Unknown,
        );
        assert!(matches!(r, Err(Error::CustomPlatformCreate(d)) if d == doc));
    }
}

#[test]
fn standard_platform_has_no_custom_json() {
    let platform =
        Platform::new("x86_64-unknown-linux-gnu".to_string(), TargetFeatures::Unknown).unwrap();
    assert_eq!(platform.custom_json(), None);
}

#[test]
fn clone_preserves_everything() {
    let mut platform = Platform::new(
        "armv5te-apple-darwin".to_string(),
        TargetFeatures::features(owned(&["vfp2"])),
    )
    .unwrap();
    platform.add_flags(owned(&["cargo_web"]));
    let copy = platform.clone();
    assert_eq!(platform, copy);
    assert_eq!(copy.triple_str(), "armv5te-apple-darwin");
    assert!(copy.has_flag("cargo_web"));
    assert_eq!(copy.target_features().matches("vfp2"), Some(true));
}
