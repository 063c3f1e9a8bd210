use target_spec::Error;
use target_spec::Triple;
use target_spec::TripleKind;

#[test]
fn builtin_triple_classification() {
    let t = Triple::new("x86_64-unknown-linux-gnu".to_string()).unwrap();
    assert_eq!(t.as_str(), "x86_64-unknown-linux-gnu");
    assert!(t.is_builtin());
    assert!(t.is_standard());
    assert!(!t.is_heuristic());
    assert!(!t.is_custom());
    assert_eq!(t.kind(), TripleKind::Builtin);
    assert_eq!(t.custom_json(), None);
}

#[test]
fn heuristic_triple_classification() {
    let t = Triple::new("armv5te-apple-darwin".to_string()).unwrap();
    assert!(t.is_heuristic());
    assert!(t.is_standard());
    assert!(!t.is_builtin());
    assert_eq!(t.kind(), TripleKind::Heuristic);
    assert_eq!(t.custom_json(), None);

    let strict = Triple::new_strict("armv5te-apple-darwin".to_string());
    assert!(matches!(strict, Err(Error::UnknownPlatformTriple(u)) if u == "armv5te-apple-darwin"));
}

#[test]
fn heuristics_need_arch_and_os() {
    // A recognized architecture alone is not enough.
    assert!(Triple::new("x86_64-veryodd-vendor".to_string()).is_err());
    // A recognized operating system alone is not enough.
    assert!(Triple::new("futurechip-unknown-linux-gnu".to_string()).is_err());
    // Both together classify, even for triples no toolchain ships.
    let t = Triple::new("mips64el-unknown-openbsd".to_string()).unwrap();
    assert!(t.is_heuristic());
    // The operating system must stand as a whole component.
    assert!(Triple::new("x86_64-linuxy-vendor".to_string()).is_err());
    // The architecture must open the triple.
    assert!(Triple::new("vendor-x86_64-somewhere".to_string()).is_err());
    // Two components are enough when both are recognized.
    let short = Triple::new("wasm64-wasi".to_string()).unwrap();
    assert!(short.is_heuristic());
}

#[test]
fn custom_triple_roundtrip() {
    let json = "{\"arch\": \"riscv64\"}";
    let t = Triple::new_custom("riscv64-custom-none".to_string(), json).unwrap();
    assert!(t.is_custom());
    assert!(!t.is_standard());
    assert_eq!(t.kind(), TripleKind::Custom);
    assert_eq!(t.as_str(), "riscv64-custom-none");
    assert_eq!(t.custom_json(), Some(json));

    let bad = Triple::new_custom("riscv64-custom-none".to_string(), "nonsense");
    assert!(matches!(bad, Err(Error::CustomPlatformCreate(d)) if d == "nonsense"));
}

#[test]
fn triple_equality_and_clone() {
    let a = Triple::new("x86_64-unknown-linux-gnu".to_string()).unwrap();
    let b = Triple::new("x86_64-unknown-linux-gnu".to_string()).unwrap();
    assert_eq!(a, b);
    assert_eq!(a.clone(), a);
    let c = Triple::new("aarch64-apple-darwin".to_string()).unwrap();
    assert_ne!(a, c);
}
