//! The platform value handed to the predicate evaluator: a classified
//! triple, a tri-state target-feature oracle, and a set of free-form flags.

use vstd::prelude::*;

use crate::errors::Error;
use crate::sorted_strings::clone_string_vec;
use crate::sorted_strings::contains_string;
use crate::sorted_strings::insert_string;
use crate::sorted_strings::lemma_sorted_canonical;
use crate::sorted_strings::strictly_sorted;
use crate::sorted_strings::vec_string_eq;
use crate::triple::builtin_triple;
use crate::triple::heuristic_triple;
use crate::triple::standard_triple;
use crate::triple::Triple;

verus! {

/// The mathematical content of a `TargetFeatures` oracle.
#[verifier::ext_equal]
pub enum TargetFeaturesView {
    Unknown,
    Features(Seq<Seq<char>>),
    All,
}

/// A tri-state oracle for target-feature membership.
#[derive(Debug, Hash)]
pub enum TargetFeatures {
    /// The feature set is not known: every membership query is
    /// indeterminate.
    Unknown,
    /// Exactly the named features are present.
    Features(Vec<String>),
    /// Every feature is considered present.
    All,
}

impl View for TargetFeatures {
    type V = TargetFeaturesView;

    open spec fn view(&self) -> TargetFeaturesView {
        match self {
            TargetFeatures::Unknown => TargetFeaturesView::Unknown,
            TargetFeatures::Features(v) => TargetFeaturesView::Features(v.deep_view()),
            TargetFeatures::All => TargetFeaturesView::All,
        }
    }
}

impl TargetFeatures {
    /// Builds an oracle that matches exactly the named features. Duplicates
    /// collapse, and the order of the names leaves no trace in the oracle.
    pub fn features(names: Vec<String>) -> (r: TargetFeatures)
        ensures
            r matches TargetFeatures::Features(v) && strictly_sorted(v.deep_view()) && (forall|
                x: Seq<char>,
            |
                v.deep_view().contains(x) <==> names.deep_view().contains(x)),
    {
        let ghost ndv = names.deep_view();
        let mut sorted: Vec<String> = Vec::new();
        proof {
            assert(sorted.deep_view() =~= Seq::<Seq<char>>::empty());
            assert(ndv.take(0) =~= Seq::<Seq<char>>::empty());
        }
        let mut i: usize = 0;
        while i < names.len()
            invariant
                ndv == names.deep_view(),
                i <= names.len(),
                strictly_sorted(sorted.deep_view()),
                forall|x: Seq<char>|
                    sorted.deep_view().contains(x) <==> ndv.take(i as int).contains(x),
            decreases names.len() - i,
        {
            insert_string(&mut sorted, names[i].clone());
            proof {
                let t0 = ndv.take(i as int);
                let t1 = ndv.take(i + 1);
                assert(t1 =~= t0.push(ndv[i as int]));
                assert forall|x: Seq<char>| t1.contains(x) implies (t0.contains(x) || x == ndv[i as int]) by {
                    let j = choose|j: int| 0 <= j < t1.len() && t1[j] == x;
                    if j < t0.len() {
                        assert(t0[j] == x);
                    }
                }
                assert forall|x: Seq<char>| (t0.contains(x) || x == ndv[i as int]) implies
                    t1.contains(x) by {
                    if t0.contains(x) {
                        let j = choose|j: int| 0 <= j < t0.len() && t0[j] == x;
                        assert(t1[j] == x);
                    } else {
                        assert(t1[t0.len() as int] == x);
                    }
                }
            }
            i += 1;
        }
        proof {
            assert(ndv.take(names@.len() as int) =~= ndv);
        }
        TargetFeatures::Features(sorted)
    }

    /// Builds an oracle with no features present: every query is
    /// determinately false, where `Unknown` could not decide.
    pub fn none() -> (r: TargetFeatures)
        ensures
            r matches TargetFeatures::Features(v) && v.deep_view() == Seq::<Seq<char>>::empty(),
    {
        let v: Vec<String> = Vec::new();
        proof {
            assert(v.deep_view() =~= Seq::<Seq<char>>::empty());
        }
        TargetFeatures::Features(v)
    }

    /// Answers whether the named feature matches: indeterminate when the
    /// feature set is unknown, membership for a known set, and true when
    /// every feature matches.
    pub fn matches(&self, feature: &str) -> (r: Option<bool>)
        ensures
            self@ is Unknown ==> r is None,
            self@ matches TargetFeaturesView::Features(fs) ==> r == Some(fs.contains(feature@)),
            self@ is All ==> r == Some(true),
    {
        match self {
            TargetFeatures::Unknown => None,
            TargetFeatures::Features(v) => Some(contains_string(v, feature)),
            TargetFeatures::All => Some(true),
        }
    }
}

impl Clone for TargetFeatures {
    /// The clone carries the same oracle.
    fn clone(&self) -> (r: Self)
        ensures
            r@ == self@,
    {
        match self {
            TargetFeatures::Unknown => TargetFeatures::Unknown,
            TargetFeatures::Features(v) => TargetFeatures::Features(clone_string_vec(v)),
            TargetFeatures::All => TargetFeatures::All,
        }
    }
}

impl PartialEq for TargetFeatures {
    fn eq(&self, other: &TargetFeatures) -> (r: bool) {
        match (self, other) {
            (TargetFeatures::Unknown, TargetFeatures::Unknown) => true,
            (TargetFeatures::All, TargetFeatures::All) => true,
            (TargetFeatures::Features(a), TargetFeatures::Features(b)) => vec_string_eq(a, b),
            _ => false,
        }
    }
}

impl vstd::std_specs::cmp::PartialEqSpecImpl for TargetFeatures {
    open spec fn obeys_eq_spec() -> bool {
        true
    }

    open spec fn eq_spec(&self, other: &TargetFeatures) -> bool {
        self@ == other@
    }
}

impl Eq for TargetFeatures {

}

/// The mathematical content of a `Platform`.
#[verifier::ext_equal]
pub struct PlatformView {
    pub triple: crate::triple::TripleView,
    pub target_features: TargetFeaturesView,
    pub flags: Seq<Seq<char>>,
}

/// The triple string and target-feature list of the platform the evaluator
/// itself runs on, as detected at build time and supplied by the caller.
#[derive(Debug)]
pub struct CurrentTargetInfo {
    /// The detected triple string.
    pub triple_str: String,
    /// The names of the target features detected as enabled.
    pub features: Vec<String>,
}

/// A platform to evaluate target predicates against: a classified triple, a
/// target-feature oracle, and a set of free-form flags. Immutable after
/// construction, except for additive flag registration.
#[derive(Debug, Hash)]
pub struct Platform {
    triple: Triple,
    target_features: TargetFeatures,
    flags: Vec<String>,
}

impl View for Platform {
    type V = PlatformView;

    closed spec fn view(&self) -> PlatformView {
        PlatformView {
            triple: self.triple@,
            target_features: self.target_features@,
            flags: self.flags.deep_view(),
        }
    }
}

impl Platform {
    /// The flag set is kept deduplicated and in lexicographic order.
    #[verifier::type_invariant]
    spec fn inv(self) -> bool {
        strictly_sorted(self@.flags)
    }

    /// Builds a standard platform from a triple string, allowing heuristic
    /// inference for strings outside the builtin table. The flag set starts
    /// empty.
    pub fn new(triple_str: String, target_features: TargetFeatures) -> (r: Result<Platform, Error>)
        ensures
            r is Ok <==> standard_triple(triple_str@),
            r matches Ok(p) ==> {
                &&& p@.triple.triple_str == triple_str@
                &&& p@.triple.custom_json is None
                &&& (p@.triple.kind is Builtin <==> builtin_triple(triple_str@))
                &&& (p@.triple.kind is Heuristic <==> !builtin_triple(triple_str@)
                    && heuristic_triple(triple_str@))
                &&& !(p@.triple.kind is Custom)
                &&& p@.target_features == target_features@
                &&& p@.flags == Seq::<Seq<char>>::empty()
            },
            r matches Err(e) ==> e matches Error::UnknownPlatformTriple(u) && u@ == triple_str@,
    {
        match Triple::new(triple_str) {
            Ok(triple) => Ok(Platform::from_triple(triple, target_features)),
            Err(e) => Err(e),
        }
    }

    /// Builds a standard platform from a triple string, consulting only the
    /// builtin table: no heuristic inference. Every triple accepted here is
    /// also accepted by `new`. The flag set starts empty.
    pub fn new_strict(triple_str: String, target_features: TargetFeatures) -> (r: Result<
        Platform,
        Error,
    >)
        ensures
            r is Ok <==> builtin_triple(triple_str@),
            r matches Ok(p) ==> {
                &&& p@.triple.triple_str == triple_str@
                &&& p@.triple.custom_json is None
                &&& p@.triple.kind is Builtin
                &&& p@.target_features == target_features@
                &&& p@.flags == Seq::<Seq<char>>::empty()
            },
            r matches Err(e) ==> e matches Error::UnknownPlatformTriple(u) && u@ == triple_str@,
    {
        match Triple::new_strict(triple_str) {
            Ok(triple) => Ok(Platform::from_triple(triple, target_features)),
            Err(e) => Err(e),
        }
    }

    /// Builds the platform the evaluator itself runs on, from the
    /// build-time detected triple string and feature list. The detected
    /// triple is always classified against the builtin table alone — the
    /// current platform is never heuristic or custom — and the detected
    /// feature list becomes an exact feature oracle; the flag set starts
    /// empty.
    pub fn current(detected: CurrentTargetInfo) -> (r: Result<Platform, Error>)
        ensures
            r is Ok <==> builtin_triple(detected.triple_str@),
            r matches Ok(p) ==> {
                &&& p@.triple.triple_str == detected.triple_str@
                &&& p@.triple.custom_json is None
                &&& p@.triple.kind is Builtin
                &&& p@.target_features matches TargetFeaturesView::Features(fs)
                    && strictly_sorted(fs) && (forall|x: Seq<char>|
                    fs.contains(x) <==> detected.features.deep_view().contains(x))
                &&& p@.flags == Seq::<Seq<char>>::empty()
            },
            r matches Err(e) ==> e matches Error::UnknownPlatformTriple(u) && u@
                == detected.triple_str@,
    {
        let CurrentTargetInfo { triple_str, features } = detected;
        let target_features = TargetFeatures::features(features);
        match Triple::new_strict(triple_str) {
            Ok(triple) => Ok(Platform::from_triple(triple, target_features)),
            Err(e) => Err(e),
        }
    }

    /// Builds a platform directly from an already-classified triple; no
    /// fallibility, since classification already happened. The flag set
    /// starts empty.
    pub fn from_triple(triple: Triple, target_features: TargetFeatures) -> (r: Platform)
        ensures
            r@.triple == triple@,
            r@.target_features == target_features@,
            r@.flags == Seq::<Seq<char>>::empty(),
    {
        let flags: Vec<String> = Vec::new();
        proof {
            assert(flags.deep_view() =~= Seq::<Seq<char>>::empty());
        }
        Platform { triple, target_features, flags }
    }

    /// Builds a custom platform from a triple string and a custom target
    /// specification document. The flag set starts empty.
    pub fn new_custom(triple_str: String, json: &str, target_features: TargetFeatures) -> (r:
        Result<Platform, Error>)
        ensures
            r is Ok <==> crate::triple::valid_custom_doc(json@),
            r matches Ok(p) ==> {
                &&& p@.triple.triple_str == triple_str@
                &&& p@.triple.kind is Custom
                &&& p@.triple.custom_json == Some(json@)
                &&& p@.target_features == target_features@
                &&& p@.flags == Seq::<Seq<char>>::empty()
            },
            r matches Err(e) ==> e matches Error::CustomPlatformCreate(d) && d@ == json@,
    {
        match Triple::new_custom(triple_str, json) {
            Ok(triple) => Ok(Platform::from_triple(triple, target_features)),
            Err(e) => Err(e),
        }
    }

    /// Registers flags: unions the given names into the flag set. Re-adding
    /// an existing flag is a no-op, and the order of registration leaves no
    /// trace. There is no way to remove a flag.
    pub fn add_flags(&mut self, flags: Vec<String>)
        ensures
            final(self)@.triple == old(self)@.triple,
            final(self)@.target_features == old(self)@.target_features,
            strictly_sorted(final(self)@.flags),
            forall|x: Seq<char>|
                final(self)@.flags.contains(x) <==> (old(self)@.flags.contains(x)
                    || flags.deep_view().contains(x)),
    {
        proof {
            use_type_invariant(&*self);
        }
        let ghost fdv = flags.deep_view();
        let mut work: Vec<String> = Vec::new();
        std::mem::swap(&mut work, &mut self.flags);
        proof {
            assert(fdv.take(0) =~= Seq::<Seq<char>>::empty());
        }
        let mut i: usize = 0;
        while i < flags.len()
            invariant
                fdv == flags.deep_view(),
                i <= flags.len(),
                strictly_sorted(work.deep_view()),
                forall|x: Seq<char>|
                    work.deep_view().contains(x) <==> (old(self)@.flags.contains(x)
                        || fdv.take(i as int).contains(x)),
            decreases flags.len() - i,
        {
            insert_string(&mut work, flags[i].clone());
            proof {
                let t0 = fdv.take(i as int);
                let t1 = fdv.take(i + 1);
                assert(t1 =~= t0.push(fdv[i as int]));
                assert forall|x: Seq<char>| t1.contains(x) implies (t0.contains(x) || x == fdv[i as int]) by {
                    let j = choose|j: int| 0 <= j < t1.len() && t1[j] == x;
                    if j < t0.len() {
                        assert(t0[j] == x);
                    }
                }
                assert forall|x: Seq<char>| (t0.contains(x) || x == fdv[i as int]) implies
                    t1.contains(x) by {
                    if t0.contains(x) {
                        let j = choose|j: int| 0 <= j < t0.len() && t0[j] == x;
                        assert(t1[j] == x);
                    } else {
                        assert(t1[t0.len() as int] == x);
                    }
                }
            }
            i += 1;
        }
        proof {
            assert(fdv.take(flags@.len() as int) =~= fdv);
        }
        self.flags = work;
    }

    /// The target triple string for this platform.
    pub fn triple_str(&self) -> (r: &str)
        ensures
            r@ == self@.triple.triple_str,
    {
        self.triple.as_str()
    }

    /// The flags enabled for this platform, deduplicated and in
    /// lexicographic order; empty if none were registered.
    pub fn flags(&self) -> (r: &Vec<String>)
        ensures
            r.deep_view() == self@.flags,
            strictly_sorted(self@.flags),
    {
        proof {
            use_type_invariant(&*self);
        }
        &self.flags
    }

    /// True exactly when the flag was registered with `add_flags`.
    pub fn has_flag(&self, flag: &str) -> (r: bool)
        ensures
            r == self@.flags.contains(flag@),
    {
        contains_string(&self.flags, flag)
    }

    /// True when this is a standard platform: builtin or heuristically
    /// determined.
    pub fn is_standard(&self) -> (r: bool)
        ensures
            r == (self@.triple.kind is Builtin || self@.triple.kind is Heuristic),
    {
        self.triple.is_standard()
    }

    /// True when this is a builtin platform. All builtin platforms are
    /// standard, but not all standard platforms are builtin.
    pub fn is_builtin(&self) -> (r: bool)
        ensures
            r == (self@.triple.kind is Builtin),
    {
        self.triple.is_builtin()
    }

    /// True when this platform was heuristically determined. All such
    /// platforms are standard.
    pub fn is_heuristic(&self) -> (r: bool)
        ensures
            r == (self@.triple.kind is Heuristic),
    {
        self.triple.is_heuristic()
    }

    /// True when this is a custom platform.
    pub fn is_custom(&self) -> (r: bool)
        ensures
            r == (self@.triple.kind is Custom),
    {
        self.triple.is_custom()
    }

    /// The underlying classified triple.
    pub fn triple(&self) -> (r: &Triple)
        ensures
            r@ == self@.triple,
    {
        &self.triple
    }

    /// The target-feature oracle for this platform.
    pub fn target_features(&self) -> (r: &TargetFeatures)
        ensures
            r@ == self@.target_features,
    {
        &self.target_features
    }

    /// The custom specification document, present exactly for custom
    /// platforms.
    pub fn custom_json(&self) -> (r: Option<&str>)
        ensures
            match r {
                Some(j) => self@.triple.custom_json == Some(j@),
                None => self@.triple.custom_json is None,
            },
    {
        self.triple.custom_json()
    }
}

impl Clone for Platform {
    /// The clone carries the same triple, oracle, and flags.
    fn clone(&self) -> (r: Self)
        ensures
            r@ == self@,
    {
        proof {
            use_type_invariant(&*self);
        }
        Platform {
            triple: self.triple.clone(),
            target_features: self.target_features.clone(),
            flags: clone_string_vec(&self.flags),
        }
    }
}

impl PartialEq for Platform {
    fn eq(&self, other: &Platform) -> (r: bool) {
        self.triple == other.triple && self.target_features == other.target_features
            && vec_string_eq(&self.flags, &other.flags)
    }
}

impl vstd::std_specs::cmp::PartialEqSpecImpl for Platform {
    open spec fn obeys_eq_spec() -> bool {
        true
    }

    open spec fn eq_spec(&self, other: &Platform) -> bool {
        self@ == other@
    }
}

impl Eq for Platform {

}

/// Flag registration is idempotent: a flag set that already absorbed some
/// flags is left unchanged when the same flags are unioned in again, so
/// `flags()` and every `has_flag` answer stay as they were.
pub proof fn lemma_add_flags_idempotent(
    base: Seq<Seq<char>>,
    added: Seq<Seq<char>>,
    once: Seq<Seq<char>>,
    twice: Seq<Seq<char>>,
)
    requires
        strictly_sorted(once),
        strictly_sorted(twice),
        forall|x: Seq<char>| once.contains(x) <==> (base.contains(x) || added.contains(x)),
        forall|x: Seq<char>| twice.contains(x) <==> (once.contains(x) || added.contains(x)),
    ensures
        twice == once,
{
    lemma_sorted_canonical(twice, once);
}

/// Two platforms agreeing on triple, target features, and flag membership
/// are equal, however their flags were registered; and equal platforms
/// agree on all three.
pub proof fn lemma_platform_equality_from_parts(p1: PlatformView, p2: PlatformView)
    requires
        strictly_sorted(p1.flags),
        strictly_sorted(p2.flags),
        p1.triple == p2.triple,
        p1.target_features == p2.target_features,
        forall|x: Seq<char>| p1.flags.contains(x) <==> p2.flags.contains(x),
    ensures
        p1 == p2,
{
    lemma_sorted_canonical(p1.flags, p2.flags);
    assert(p1 =~= p2);
}

/// Equal platforms agree on the triple, the target features, and the flag
/// set: changing any one of the three breaks equality.
pub proof fn lemma_platform_equality_parts(p1: PlatformView, p2: PlatformView)
    requires
        p1 == p2,
    ensures
        p1.triple == p2.triple,
        p1.target_features == p2.target_features,
        p1.flags == p2.flags,
{
}

} // verus!
