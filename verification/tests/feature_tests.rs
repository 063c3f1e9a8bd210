use target_spec::TargetFeatures;

fn owned(names: &[&str]) -> Vec<String> {
    let mut v: Vec<String> = Vec::new();
    for n in names {
        v.push((*n).to_string());
    }
    v
}

#[test]
fn unknown_is_indeterminate_for_every_name() {
    let tf = TargetFeatures::Unknown;
    assert_eq!(tf.matches("sse2"), None);
    assert_eq!(tf.matches(""), None);
    assert_eq!(tf.matches("never-seen-before"), None);
    assert_eq!(tf.matches("a"), None);
}

#[test]
fn exact_feature_set_with_duplicates() {
    let tf = TargetFeatures::features(owned(&["a", "b", "a"]));
    assert_eq!(tf.matches("a"), Some(true));
    assert_eq!(tf.matches("b"), Some(true));
    assert_eq!(tf.matches("c"), Some(false));
    let no_dup = TargetFeatures::features(owned(&["a", "b"]));
    assert_eq!(tf, no_dup);
}

#[test]
fn feature_name_order_leaves_no_trace() {
    let ab = TargetFeatures::features(owned(&["a", "b"]));
    let ba = TargetFeatures::features(owned(&["b", "a"]));
    assert_eq!(ab, ba);
}

#[test]
fn all_matches_every_name() {
    let tf = TargetFeatures::All;
    assert_eq!(tf.matches("sse2"), Some(true));
    assert_eq!(tf.matches(""), Some(true));
    assert_eq!(tf.matches("anything-at-all"), Some(true));
}

#[test]
fn none_is_determinately_false_unlike_unknown() {
    let none = TargetFeatures::none();
    assert_eq!(none.matches("sse2"), Some(false));
    assert_eq!(none.matches(""), Some(false));
    assert_ne!(none, TargetFeatures::Unknown);
    assert_eq!(none, TargetFeatures::features(Vec::new()));
}

#[test]
fn oracle_variants_compare_by_content() {
    assert_eq!(TargetFeatures::Unknown, TargetFeatures::Unknown);
    assert_eq!(TargetFeatures::All, TargetFeatures::All);
    assert_ne!(TargetFeatures::Unknown, TargetFeatures::All);
    assert_ne!(TargetFeatures::features(owned(&["a"])), TargetFeatures::features(owned(&["b"])));
    let tf = TargetFeatures::features(owned(&["neon"]));
    assert_eq!(tf.clone(), tf);
}
