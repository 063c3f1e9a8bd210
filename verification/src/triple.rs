//! Classification of target triple strings: the builtin platform table, the
//! structural heuristic for triples outside that table, and the classified
//! `Triple` value itself.

use vstd::prelude::*;
use vstd::string::StrSliceExecFns;

use crate::errors::Error;
use crate::text::str_eq;

verus! {

/// The characters of `c` occur in `s` at position `i` as a whole
/// dash-separated component: bounded on each side by a dash or an end of
/// the string.
pub open spec fn component_at(s: Seq<char>, c: Seq<char>, i: int) -> bool {
    &&& 0 <= i
    &&& i + c.len() <= s.len()
    &&& s.subrange(i, i + c.len()) == c
    &&& (i == 0 || s[i - 1] == '-')
    &&& (i + c.len() == s.len() || s[i + c.len()] == '-')
}

/// The characters of `a` form the leading component of `s`, with at least
/// one further component after it.
pub open spec fn leading_component(s: Seq<char>, a: Seq<char>) -> bool {
    component_at(s, a, 0) && a.len() < s.len()
}

/// The characters of `o` form a whole component of `s` somewhere after the
/// leading component.
pub open spec fn later_component(s: Seq<char>, o: Seq<char>) -> bool {
    exists|i: int| 1 <= i && component_at(s, o, i)
}

/// Decides whether the characters of `c` occur in `s` starting at
/// position `i`.
fn eq_at(s: &str, c: &str, i: usize) -> (r: bool)
    requires
        i + c@.len() <= s@.len(),
    ensures
        r == (s@.subrange(i as int, i as int + c@.len()) == c@),
{
    let s_len = s.unicode_len();
    let c_len = c.unicode_len();
    let mut j: usize = 0;
    while j < c_len
        invariant
            s_len == s@.len(),
            c_len == c@.len(),
            i + c_len <= s_len,
            j <= c_len,
            forall|jj: int| 0 <= jj < j ==> s@[i + jj] == c@[jj],
        decreases c_len - j,
    {
        if s.get_char(i + j) != c.get_char(j) {
            proof {
                let sub = s@.subrange(i as int, i as int + c@.len());
                assert(sub[j as int] == s@[i + j]);
            }
            return false;
        }
        j += 1;
    }
    proof {
        assert(s@.subrange(i as int, i as int + c@.len()) =~= c@);
    }
    true
}

/// Decides whether the characters of `c` form a whole component of `s` at
/// position `i`.
fn is_component_at(s: &str, c: &str, i: usize) -> (r: bool)
    ensures
        r == component_at(s@, c@, i as int),
{
    let s_len = s.unicode_len();
    let c_len = c.unicode_len();
    if i > s_len || c_len > s_len - i {
        return false;
    }
    if i > 0 && s.get_char(i - 1) != '-' {
        return false;
    }
    if i + c_len < s_len && s.get_char(i + c_len) != '-' {
        return false;
    }
    eq_at(s, c, i)
}

/// Decides whether the characters of `a` form the leading component of `s`
/// with at least one further component after it.
fn is_leading_component(s: &str, a: &str) -> (r: bool)
    ensures
        r == leading_component(s@, a@),
{
    is_component_at(s, a, 0) && a.unicode_len() < s.unicode_len()
}

/// Decides whether the characters of `c` form a whole component of `s`
/// somewhere after the leading component.
fn has_later_component(s: &str, c: &str) -> (r: bool)
    requires
        c@.len() >= 1,
    ensures
        r == later_component(s@, c@),
{
    let s_len = s.unicode_len();
    let c_len = c.unicode_len();
    if c_len > s_len {
        return false;
    }
    let last: usize = s_len - c_len;
    let mut i: usize = 1;
    while i <= last
        invariant
            s_len == s@.len(),
            c_len == c@.len(),
            1 <= c_len <= s_len,
            last == s_len - c_len,
            1 <= i,
            forall|ii: int| 1 <= ii < i ==> !component_at(s@, c@, ii),
        decreases last + 1 - i,
    {
        if is_component_at(s, c, i) {
            return true;
        }
        i += 1;
    }
    false
}

/// The triple string opens with a recognized architecture component,
/// followed by at least one further component.
pub open spec fn known_arch_prefix(s: Seq<char>) -> bool {
    ||| leading_component(s, "aarch64"@)
    ||| leading_component(s, "arm"@)
    ||| leading_component(s, "arm64ec"@)
    ||| leading_component(s, "armebv7r"@)
    ||| leading_component(s, "armv5te"@)
    ||| leading_component(s, "armv7"@)
    ||| leading_component(s, "armv7a"@)
    ||| leading_component(s, "armv7r"@)
    ||| leading_component(s, "avr"@)
    ||| leading_component(s, "hexagon"@)
    ||| leading_component(s, "i586"@)
    ||| leading_component(s, "i686"@)
    ||| leading_component(s, "loongarch64"@)
    ||| leading_component(s, "m68k"@)
    ||| leading_component(s, "mips"@)
    ||| leading_component(s, "mips64"@)
    ||| leading_component(s, "mips64el"@)
    ||| leading_component(s, "mipsel"@)
    ||| leading_component(s, "powerpc"@)
    ||| leading_component(s, "powerpc64"@)
    ||| leading_component(s, "powerpc64le"@)
    ||| leading_component(s, "riscv32"@)
    ||| leading_component(s, "riscv64"@)
    ||| leading_component(s, "riscv64gc"@)
    ||| leading_component(s, "s390x"@)
    ||| leading_component(s, "sparc"@)
    ||| leading_component(s, "sparc64"@)
    ||| leading_component(s, "sparcv9"@)
    ||| leading_component(s, "wasm32"@)
    ||| leading_component(s, "wasm64"@)
    ||| leading_component(s, "x86_64"@)
}

/// The triple string names a recognized operating system in a component
/// after the leading one.
pub open spec fn known_os_component(s: Seq<char>) -> bool {
    ||| later_component(s, "android"@)
    ||| later_component(s, "cuda"@)
    ||| later_component(s, "darwin"@)
    ||| later_component(s, "dragonfly"@)
    ||| later_component(s, "emscripten"@)
    ||| later_component(s, "freebsd"@)
    ||| later_component(s, "fuchsia"@)
    ||| later_component(s, "haiku"@)
    ||| later_component(s, "hermit"@)
    ||| later_component(s, "illumos"@)
    ||| later_component(s, "ios"@)
    ||| later_component(s, "linux"@)
    ||| later_component(s, "netbsd"@)
    ||| later_component(s, "none"@)
    ||| later_component(s, "openbsd"@)
    ||| later_component(s, "redox"@)
    ||| later_component(s, "solaris"@)
    ||| later_component(s, "tvos"@)
    ||| later_component(s, "uefi"@)
    ||| later_component(s, "wasi"@)
    ||| later_component(s, "wasip1"@)
    ||| later_component(s, "wasip2"@)
    ||| later_component(s, "watchos"@)
    ||| later_component(s, "windows"@)
}

/// A triple string is heuristically inferable when it opens with a
/// recognized architecture component and names a recognized operating
/// system in a later component.
pub open spec fn heuristic_triple(s: Seq<char>) -> bool {
    known_arch_prefix(s) && known_os_component(s)
}

/// The triple string is in the builtin platform table.
pub open spec fn builtin_triple(s: Seq<char>) -> bool {
    ||| s == "aarch64-apple-darwin"@
    ||| s == "aarch64-apple-ios"@
    ||| s == "aarch64-linux-android"@
    ||| s == "aarch64-pc-windows-msvc"@
    ||| s == "aarch64-unknown-linux-gnu"@
    ||| s == "aarch64-unknown-linux-musl"@
    ||| s == "aarch64-unknown-none"@
    ||| s == "arm-unknown-linux-gnueabi"@
    ||| s == "arm-unknown-linux-gnueabihf"@
    ||| s == "armv7-linux-androideabi"@
    ||| s == "armv7-unknown-linux-gnueabihf"@
    ||| s == "i586-unknown-linux-gnu"@
    ||| s == "i686-pc-windows-gnu"@
    ||| s == "i686-pc-windows-msvc"@
    ||| s == "i686-unknown-linux-gnu"@
    ||| s == "loongarch64-unknown-linux-gnu"@
    ||| s == "powerpc-unknown-linux-gnu"@
    ||| s == "powerpc64-unknown-linux-gnu"@
    ||| s == "powerpc64le-unknown-linux-gnu"@
    ||| s == "riscv32imac-unknown-none-elf"@
    ||| s == "riscv64gc-unknown-linux-gnu"@
    ||| s == "s390x-unknown-linux-gnu"@
    ||| s == "sparcv9-sun-solaris"@
    ||| s == "thumbv6m-none-eabi"@
    ||| s == "thumbv7em-none-eabi"@
    ||| s == "wasm32-unknown-emscripten"@
    ||| s == "wasm32-unknown-unknown"@
    ||| s == "wasm32-wasip1"@
    ||| s == "x86_64-apple-darwin"@
    ||| s == "x86_64-apple-ios"@
    ||| s == "x86_64-fortanix-unknown-sgx"@
    ||| s == "x86_64-linux-android"@
    ||| s == "x86_64-pc-windows-gnu"@
    ||| s == "x86_64-pc-windows-msvc"@
    ||| s == "x86_64-unknown-freebsd"@
    ||| s == "x86_64-unknown-illumos"@
    ||| s == "x86_64-unknown-linux-gnu"@
    ||| s == "x86_64-unknown-linux-musl"@
    ||| s == "x86_64-unknown-netbsd"@
    ||| s == "x86_64-unknown-redox"@
}

/// A triple string is standard when it is builtin or heuristically
/// inferable.
pub open spec fn standard_triple(s: Seq<char>) -> bool {
    builtin_triple(s) || heuristic_triple(s)
}

/// Decides membership in the builtin platform table.
pub fn is_builtin_triple(s: &str) -> (r: bool)
    ensures
        r == builtin_triple(s@),
{
    str_eq(s, "aarch64-apple-darwin")
        || str_eq(s, "aarch64-apple-ios")
        || str_eq(s, "aarch64-linux-android")
        || str_eq(s, "aarch64-pc-windows-msvc")
        || str_eq(s, "aarch64-unknown-linux-gnu")
        || str_eq(s, "aarch64-unknown-linux-musl")
        || str_eq(s, "aarch64-unknown-none")
        || str_eq(s, "arm-unknown-linux-gnueabi")
        || str_eq(s, "arm-unknown-linux-gnueabihf")
        || str_eq(s, "armv7-linux-androideabi")
        || str_eq(s, "armv7-unknown-linux-gnueabihf")
        || str_eq(s, "i586-unknown-linux-gnu")
        || str_eq(s, "i686-pc-windows-gnu")
        || str_eq(s, "i686-pc-windows-msvc")
        || str_eq(s, "i686-unknown-linux-gnu")
        || str_eq(s, "loongarch64-unknown-linux-gnu")
        || str_eq(s, "powerpc-unknown-linux-gnu")
        || str_eq(s, "powerpc64-unknown-linux-gnu")
        || str_eq(s, "powerpc64le-unknown-linux-gnu")
        || str_eq(s, "riscv32imac-unknown-none-elf")
        || str_eq(s, "riscv64gc-unknown-linux-gnu")
        || str_eq(s, "s390x-unknown-linux-gnu")
        || str_eq(s, "sparcv9-sun-solaris")
        || str_eq(s, "thumbv6m-none-eabi")
        || str_eq(s, "thumbv7em-none-eabi")
        || str_eq(s, "wasm32-unknown-emscripten")
        || str_eq(s, "wasm32-unknown-unknown")
        || str_eq(s, "wasm32-wasip1")
        || str_eq(s, "x86_64-apple-darwin")
        || str_eq(s, "x86_64-apple-ios")
        || str_eq(s, "x86_64-fortanix-unknown-sgx")
        || str_eq(s, "x86_64-linux-android")
        || str_eq(s, "x86_64-pc-windows-gnu")
        || str_eq(s, "x86_64-pc-windows-msvc")
        || str_eq(s, "x86_64-unknown-freebsd")
        || str_eq(s, "x86_64-unknown-illumos")
        || str_eq(s, "x86_64-unknown-linux-gnu")
        || str_eq(s, "x86_64-unknown-linux-musl")
        || str_eq(s, "x86_64-unknown-netbsd")
        || str_eq(s, "x86_64-unknown-redox")
}

/// Decides whether a triple string is heuristically inferable.
pub fn is_heuristic_triple(s: &str) -> (r: bool)
    ensures
        r == heuristic_triple(s@),
{
    let arch = is_leading_component(s, "aarch64")
        || is_leading_component(s, "arm")
        || is_leading_component(s, "arm64ec")
        || is_leading_component(s, "armebv7r")
        || is_leading_component(s, "armv5te")
        || is_leading_component(s, "armv7")
        || is_leading_component(s, "armv7a")
        || is_leading_component(s, "armv7r")
        || is_leading_component(s, "avr")
        || is_leading_component(s, "hexagon")
        || is_leading_component(s, "i586")
        || is_leading_component(s, "i686")
        || is_leading_component(s, "loongarch64")
        || is_leading_component(s, "m68k")
        || is_leading_component(s, "mips")
        || is_leading_component(s, "mips64")
        || is_leading_component(s, "mips64el")
        || is_leading_component(s, "mipsel")
        || is_leading_component(s, "powerpc")
        || is_leading_component(s, "powerpc64")
        || is_leading_component(s, "powerpc64le")
        || is_leading_component(s, "riscv32")
        || is_leading_component(s, "riscv64")
        || is_leading_component(s, "riscv64gc")
        || is_leading_component(s, "s390x")
        || is_leading_component(s, "sparc")
        || is_leading_component(s, "sparc64")
        || is_leading_component(s, "sparcv9")
        || is_leading_component(s, "wasm32")
        || is_leading_component(s, "wasm64")
        || is_leading_component(s, "x86_64");
    if !arch {
        return false;
    }
    proof {
        reveal_strlit("android");
        reveal_strlit("cuda");
        reveal_strlit("darwin");
        reveal_strlit("dragonfly");
        reveal_strlit("emscripten");
        reveal_strlit("freebsd");
        reveal_strlit("fuchsia");
        reveal_strlit("haiku");
        reveal_strlit("hermit");
        reveal_strlit("illumos");
        reveal_strlit("ios");
        reveal_strlit("linux");
        reveal_strlit("netbsd");
        reveal_strlit("none");
        reveal_strlit("openbsd");
        reveal_strlit("redox");
        reveal_strlit("solaris");
        reveal_strlit("tvos");
        reveal_strlit("uefi");
        reveal_strlit("wasi");
        reveal_strlit("wasip1");
        reveal_strlit("wasip2");
        reveal_strlit("watchos");
        reveal_strlit("windows");
    }
    has_later_component(s, "android")
        || has_later_component(s, "cuda")
        || has_later_component(s, "darwin")
        || has_later_component(s, "dragonfly")
        || has_later_component(s, "emscripten")
        || has_later_component(s, "freebsd")
        || has_later_component(s, "fuchsia")
        || has_later_component(s, "haiku")
        || has_later_component(s, "hermit")
        || has_later_component(s, "illumos")
        || has_later_component(s, "ios")
        || has_later_component(s, "linux")
        || has_later_component(s, "netbsd")
        || has_later_component(s, "none")
        || has_later_component(s, "openbsd")
        || has_later_component(s, "redox")
        || has_later_component(s, "solaris")
        || has_later_component(s, "tvos")
        || has_later_component(s, "uefi")
        || has_later_component(s, "wasi")
        || has_later_component(s, "wasip1")
        || has_later_component(s, "wasip2")
        || has_later_component(s, "watchos")
        || has_later_component(s, "windows")
}

/// Any triple accepted under the strict, builtin-only classification is
/// also accepted when heuristic inference is allowed.
pub proof fn lemma_builtin_is_standard(t: Seq<char>)
    ensures
        builtin_triple(t) ==> standard_triple(t),
{
}

/// A triple rejected when heuristic inference is allowed is also rejected
/// under the strict, builtin-only classification.
pub proof fn lemma_not_standard_not_builtin(t: Seq<char>)
    ensures
        !standard_triple(t) ==> !builtin_triple(t),
{
}

/// A custom specification document passes the shape check applied here when
/// it is a braced object at its top level. The full custom-target format is
/// outside this model; only this shape is validated.
pub open spec fn valid_custom_doc(j: Seq<char>) -> bool {
    j.len() >= 2 && j[0] == '{' && j[j.len() - 1] == '}'
}

/// Decides whether a custom specification document passes the shape check.
fn is_valid_custom_doc(j: &str) -> (r: bool)
    ensures
        r == valid_custom_doc(j@),
{
    let len = j.unicode_len();
    len >= 2 && j.get_char(0) == '{' && j.get_char(len - 1) == '}'
}

/// How a triple string was classified. The classification is fixed when the
/// triple is constructed and never changes.
#[derive(Clone, Copy, Debug, PartialEq, Eq, Hash, Structural)]
pub enum TripleKind {
    /// The triple is in the builtin platform table.
    Builtin,
    /// The triple is not builtin, but its characteristics were inferred
    /// from the structure of its string.
    Heuristic,
    /// The triple was supplied together with a custom specification
    /// document.
    Custom,
}

/// The mathematical content of a `Triple`.
pub struct TripleView {
    pub triple_str: Seq<char>,
    pub kind: TripleKind,
    pub custom_json: Option<Seq<char>>,
}

/// A triple string together with its provenance classification.
#[derive(Debug, Hash)]
pub struct Triple {
    triple_str: String,
    kind: TripleKind,
    custom_json: Option<String>,
}

impl View for Triple {
    type V = TripleView;

    closed spec fn view(&self) -> TripleView {
        TripleView {
            triple_str: self.triple_str@,
            kind: self.kind,
            custom_json: match self.custom_json {
                Some(j) => Some(j@),
                None => None,
            },
        }
    }
}

impl Triple {
    /// The classification matches the triple string, and exactly the custom
    /// triples carry a specification document.
    #[verifier::type_invariant]
    spec fn inv(self) -> bool {
        match self@.kind {
            TripleKind::Builtin => builtin_triple(self@.triple_str) && self@.custom_json is None,
            TripleKind::Heuristic => !builtin_triple(self@.triple_str) && heuristic_triple(
                self@.triple_str,
            ) && self@.custom_json is None,
            TripleKind::Custom => match self@.custom_json {
                Some(j) => valid_custom_doc(j),
                None => false,
            },
        }
    }

    /// Classifies a triple string, allowing heuristic inference for strings
    /// that are not in the builtin table.
    pub fn new(triple_str: String) -> (r: Result<Triple, Error>)
        ensures
            r is Ok <==> standard_triple(triple_str@),
            r matches Ok(t) ==> {
                &&& t@.triple_str == triple_str@
                &&& t@.custom_json is None
                &&& (t@.kind is Builtin <==> builtin_triple(triple_str@))
                &&& (t@.kind is Heuristic <==> !builtin_triple(triple_str@) && heuristic_triple(
                    triple_str@,
                ))
                &&& !(t@.kind is Custom)
            },
            r matches Err(e) ==> e matches Error::UnknownPlatformTriple(u) && u@ == triple_str@,
    {
        if is_builtin_triple(triple_str.as_str()) {
            Ok(Triple { triple_str, kind: TripleKind::Builtin, custom_json: None })
        } else if is_heuristic_triple(triple_str.as_str()) {
            Ok(Triple { triple_str, kind: TripleKind::Heuristic, custom_json: None })
        } else {
            Err(Error::UnknownPlatformTriple(triple_str))
        }
    }

    /// Classifies a triple string against the builtin table only, with no
    /// heuristic inference.
    pub fn new_strict(triple_str: String) -> (r: Result<Triple, Error>)
        ensures
            r is Ok <==> builtin_triple(triple_str@),
            r matches Ok(t) ==> {
                &&& t@.triple_str == triple_str@
                &&& t@.custom_json is None
                &&& t@.kind is Builtin
            },
            r matches Err(e) ==> e matches Error::UnknownPlatformTriple(u) && u@ == triple_str@,
    {
        if is_builtin_triple(triple_str.as_str()) {
            Ok(Triple { triple_str, kind: TripleKind::Builtin, custom_json: None })
        } else {
            Err(Error::UnknownPlatformTriple(triple_str))
        }
    }

    /// Builds a custom triple from a triple string and its specification
    /// document.
    pub fn new_custom(triple_str: String, json: &str) -> (r: Result<Triple, Error>)
        ensures
            r is Ok <==> valid_custom_doc(json@),
            r matches Ok(t) ==> {
                &&& t@.triple_str == triple_str@
                &&& t@.kind is Custom
                &&& t@.custom_json == Some(json@)
            },
            r matches Err(e) ==> e matches Error::CustomPlatformCreate(d) && d@ == json@,
    {
        if is_valid_custom_doc(json) {
            Ok(
                Triple {
                    triple_str,
                    kind: TripleKind::Custom,
                    custom_json: Some(json.to_owned()),
                },
            )
        } else {
            Err(Error::CustomPlatformCreate(json.to_owned()))
        }
    }

    /// The triple string.
    pub fn as_str(&self) -> (r: &str)
        ensures
            r@ == self@.triple_str,
    {
        self.triple_str.as_str()
    }

    /// True when the triple is builtin or heuristically inferred.
    pub fn is_standard(&self) -> (r: bool)
        ensures
            r == (self@.kind is Builtin || self@.kind is Heuristic),
    {
        matches!(self.kind, TripleKind::Builtin | TripleKind::Heuristic)
    }

    /// True when the triple is in the builtin platform table.
    pub fn is_builtin(&self) -> (r: bool)
        ensures
            r == (self@.kind is Builtin),
    {
        matches!(self.kind, TripleKind::Builtin)
    }

    /// True when the triple was heuristically inferred.
    pub fn is_heuristic(&self) -> (r: bool)
        ensures
            r == (self@.kind is Heuristic),
    {
        matches!(self.kind, TripleKind::Heuristic)
    }

    /// True when the triple is custom.
    pub fn is_custom(&self) -> (r: bool)
        ensures
            r == (self@.kind is Custom),
    {
        matches!(self.kind, TripleKind::Custom)
    }

    /// The classification of this triple.
    pub fn kind(&self) -> (r: TripleKind)
        ensures
            r == self@.kind,
    {
        self.kind
    }

    /// The custom specification document, present exactly for custom
    /// triples.
    pub fn custom_json(&self) -> (r: Option<&str>)
        ensures
            match r {
                Some(j) => self@.custom_json == Some(j@),
                None => self@.custom_json is None,
            },
    {
        match &self.custom_json {
            Some(j) => Some(j.as_str()),
            None => None,
        }
    }
}

impl Clone for Triple {
    /// The clone carries the same triple string, classification, and
    /// specification document.
    fn clone(&self) -> (r: Self)
        ensures
            r == *self,
    {
        proof {
            use_type_invariant(&*self);
        }
        Triple {
            triple_str: self.triple_str.clone(),
            kind: self.kind,
            custom_json: match &self.custom_json {
                Some(j) => Some(j.clone()),
                None => None,
            },
        }
    }
}

impl PartialEq for Triple {
    fn eq(&self, other: &Triple) -> (r: bool) {
        let r1 = self.triple_str == other.triple_str;
        let r2 = self.kind == other.kind;
        let r3 = match (&self.custom_json, &other.custom_json) {
            (Some(a), Some(b)) => *a == *b,
            (None, None) => true,
            _ => false,
        };
        r1 && r2 && r3
    }
}

impl vstd::std_specs::cmp::PartialEqSpecImpl for Triple {
    open spec fn obeys_eq_spec() -> bool {
        true
    }

    open spec fn eq_spec(&self, other: &Triple) -> bool {
        self@ == other@
    }
}

impl Eq for Triple {

}

} // verus!
