//! Operating system versions: the version number in one of its forms, with an optional
//! edition and codename.
use vstd::prelude::*;

use crate::text::{
    all_digits, chars_of, decimal, digit_char, digit_value, digits_u64, digits_u64_in,
    digits_value, is_digit, lemma_split_nonempty, opt_view, push_decimal, split, split_bounds,
};

verus! {

/// Operating system version including version number and optional edition.
#[derive(Debug, Clone, PartialEq, Eq, PartialOrd, Ord, Hash)]
pub struct Version {
    pub(crate) version: VersionType,
    pub(crate) edition: Option<String>,
    pub(crate) codename: Option<String>,
}

/// Operating system version.
#[derive(Debug, Clone, PartialEq, Eq, PartialOrd, Ord, Hash)]
pub enum VersionType {
    /// Unknown version.
    Unknown,
    /// Semantic version (major.minor.patch).
    Semantic(u64, u64, u64),
    /// Rolling version. Optionally contains the release date in the string format.
    Rolling(Option<String>),
    /// Custom version format.
    Custom(String),
}

/// The mathematical value of a `VersionType`.
pub enum SpecVersionType {
    Unknown,
    Semantic(u64, u64, u64),
    Rolling(Option<Seq<char>>),
    Custom(Seq<char>),
}

/// The mathematical value of a `Version`.
pub struct SpecVersion {
    pub version: SpecVersionType,
    pub edition: Option<Seq<char>>,
    pub codename: Option<Seq<char>>,
}

impl View for VersionType {
    type V = SpecVersionType;

    open spec fn view(&self) -> SpecVersionType {
        match self {
            VersionType::Unknown => SpecVersionType::Unknown,
            VersionType::Semantic(a, b, c) => SpecVersionType::Semantic(*a, *b, *c),
            VersionType::Rolling(d) => SpecVersionType::Rolling(opt_view(*d)),
            VersionType::Custom(s) => SpecVersionType::Custom(s@),
        }
    }
}

impl View for Version {
    type V = SpecVersion;

    closed spec fn view(&self) -> SpecVersion {
        SpecVersion {
            version: self.version@,
            edition: opt_view(self.edition),
            codename: opt_view(self.codename),
        }
    }
}

/// What a version string reads as: one to three `.`-separated runs of decimal digits, each
/// fitting in 64 bits, with missing parts read as zero. Nothing else reads as a version: no
/// surrounding space, no empty part (so no final `.`), no sign.
pub open spec fn spec_parse_version(s: Seq<char>) -> Option<(u64, u64, u64)> {
    let parts = split(s, '.');
    if parts.len() > 3 {
        None
    } else {
        let major = digits_u64(parts[0]);
        let minor = if parts.len() > 1 {
            digits_u64(parts[1])
        } else {
            Some(0u64)
        };
        let patch = if parts.len() > 2 {
            digits_u64(parts[2])
        } else {
            Some(0u64)
        };
        match (major, minor, patch) {
            (Some(a), Some(b), Some(c)) => Some((a, b, c)),
            _ => None,
        }
    }
}

/// The version type a string stands for: semantic where it reads as a version number,
/// custom (the string itself) otherwise.
pub open spec fn spec_from_string(s: Seq<char>) -> SpecVersionType {
    match spec_parse_version(s) {
        Some((a, b, c)) => SpecVersionType::Semantic(a, b, c),
        None => SpecVersionType::Custom(s),
    }
}

/// `parts` joined with `.` between them.
pub open spec fn dotted(parts: Seq<Seq<char>>) -> Seq<char>
    decreases parts.len(),
{
    if parts.len() <= 1 {
        if parts.len() == 0 {
            Seq::empty()
        } else {
            parts[0]
        }
    } else {
        dotted(parts.drop_last()) + seq!['.'] + parts.last()
    }
}

/// A non-empty run of decimal digits whose value fits in 64 bits.
pub open spec fn is_u64_digits(s: Seq<char>) -> bool {
    s.len() > 0 && all_digits(s) && digits_value(s) <= u64::MAX
}

/// How a version type is displayed: `?` when unknown, `major.minor.patch`,
/// `rolling (date)` (`?` for a missing date), or the custom text itself.
pub open spec fn version_type_text(v: SpecVersionType) -> Seq<char> {
    match v {
        SpecVersionType::Unknown => "?"@,
        SpecVersionType::Semantic(a, b, c) => decimal(a as nat) + "."@ + decimal(b as nat) + "."@
            + decimal(c as nat),
        SpecVersionType::Rolling(d) => "rolling ("@ + match d {
            Some(x) => x,
            None => "?"@,
        } + ")"@,
        SpecVersionType::Custom(s) => s,
    }
}

/// How a version is displayed: the edition and a space before the version, if it has one.
pub open spec fn version_text(v: SpecVersion) -> Seq<char> {
    match v.edition {
        Some(e) => e + " "@ + version_type_text(v.version),
        None => version_type_text(v.version),
    }
}

impl VersionType {
    /// The display text of this version; see `version_type_text`.
    pub fn to_string(&self) -> (r: String)
        ensures
            r@ == version_type_text(self@),
    {
        match self {
            VersionType::Unknown => "?".to_owned(),
            VersionType::Semantic(a, b, c) => {
                let mut s = String::new();
                push_decimal(&mut s, *a);
                s.append(".");
                push_decimal(&mut s, *b);
                s.append(".");
                push_decimal(&mut s, *c);
                assert(s@ =~= version_type_text(self@));
                s
            },
            VersionType::Rolling(d) => {
                let mut s = "rolling (".to_owned();
                match d {
                    Some(x) => s.append(x.as_str()),
                    None => s.append("?"),
                }
                s.append(")");
                s
            },
            VersionType::Custom(x) => x.clone(),
        }
    }

    /// Constructs `VersionType` from the given string.
    ///
    /// The resulting type is `VersionType::Semantic` if the given string can be parsed
    /// as semantic version. Otherwise `VersionType::Custom` is returned.
    pub fn from_string(s: &str) -> (r: Self)
        ensures
            r@ == spec_from_string(s@),
    {
        match parse_version(s) {
            Some((major, minor, patch)) => VersionType::Semantic(major, minor, patch),
            None => VersionType::Custom(s.to_owned()),
        }
    }
}

impl Version {
    /// The display text of this version; see `version_text`.
    pub fn to_string(&self) -> (r: String)
        ensures
            r@ == version_text(self@),
    {
        match &self.edition {
            Some(e) => {
                let mut s = e.clone();
                s.append(" ");
                let v = self.version.to_string();
                s.append(v.as_str());
                s
            },
            None => self.version.to_string(),
        }
    }

    /// Constructs a new `Version` instance with the given version type, edition and codename.
    pub fn new(version: VersionType, edition: Option<String>, codename: Option<String>) -> (r:
        Self)
        ensures
            r@ == (SpecVersion {
                version: version@,
                edition: opt_view(edition),
                codename: opt_view(codename),
            }),
    {
        Version { version, edition, codename }
    }

    /// Constructs a new `Version` instance with an unknown version. The edition and codename
    /// are set to `None`.
    pub fn unknown() -> (r: Self)
        ensures
            r@ == (SpecVersion { version: SpecVersionType::Unknown, edition: None, codename: None }),
    {
        Version { version: VersionType::Unknown, edition: None, codename: None }
    }

    /// Constructs a new `Version` instance with semantic version and given edition and codename.
    pub fn semantic(
        major: u64,
        minor: u64,
        patch: u64,
        edition: Option<String>,
        codename: Option<String>,
    ) -> (r: Self)
        ensures
            r@ == (SpecVersion {
                version: SpecVersionType::Semantic(major, minor, patch),
                edition: opt_view(edition),
                codename: opt_view(codename),
            }),
    {
        Version { version: VersionType::Semantic(major, minor, patch), edition, codename }
    }

    /// Constructs a new `Version` instance with "rolling" version and given edition and codename.
    pub fn rolling(date: Option<String>, edition: Option<String>, codename: Option<String>) -> (r:
        Self)
        ensures
            r@ == (SpecVersion {
                version: SpecVersionType::Rolling(opt_view(date)),
                edition: opt_view(edition),
                codename: opt_view(codename),
            }),
    {
        Version { version: VersionType::Rolling(date), edition, codename }
    }

    /// Constructs a new `Version` instance with "custom" (non semantic) version and given
    /// edition and codename.
    pub fn custom(version: String, edition: Option<String>, codename: Option<String>) -> (r: Self)
        ensures
            r@ == (SpecVersion {
                version: SpecVersionType::Custom(version@),
                edition: opt_view(edition),
                codename: opt_view(codename),
            }),
    {
        Version { version: VersionType::Custom(version), edition, codename }
    }

    /// Returns operating system version. See `VersionType` for details.
    pub fn version(&self) -> (r: &VersionType)
        ensures
            r@ == self@.version,
    {
        &self.version
    }

    /// Returns optional operation system edition.
    pub fn edition(&self) -> (r: Option<&str>)
        ensures
            match r {
                Some(e) => self@.edition == Some(e@),
                None => self@.edition is None,
            },
    {
        match &self.edition {
            Some(e) => Some(e.as_str()),
            None => None,
        }
    }

    /// Returns optional operation system 'codename'.
    pub fn codename(&self) -> (r: Option<&str>)
        ensures
            match r {
                Some(c) => self@.codename == Some(c@),
                None => self@.codename is None,
            },
    {
        match &self.codename {
            Some(c) => Some(c.as_str()),
            None => None,
        }
    }
}

/// The version record of an optional version string: read as `VersionType::from_string`
/// reads it, unknown where absent; no edition or codename.
pub open spec fn spec_version_of(value: Option<Seq<char>>) -> SpecVersion {
    SpecVersion {
        version: match value {
            Some(v) => spec_from_string(v),
            None => SpecVersionType::Unknown,
        },
        edition: None,
        codename: None,
    }
}

/// The version record of an optional version string; see `spec_version_of`.
pub fn version_of(value: Option<String>) -> (r: Version)
    ensures
        r@ == spec_version_of(opt_view(value)),
{
    match value {
        Some(v) => Version::new(VersionType::from_string(v.as_str()), None, None),
        None => Version::new(VersionType::Unknown, None, None),
    }
}

/// Reads `s` as a version number `major[.minor[.patch]]`; see `spec_parse_version`.
pub fn parse_version(s: &str) -> (r: Option<(u64, u64, u64)>)
    ensures
        r == spec_parse_version(s@),
{
    let cs = chars_of(s);
    let pieces = split_bounds(&cs, 0, cs.len(), '.');
    proof {
        assert(cs@.subrange(0, cs@.len() as int) =~= s@);
        lemma_split_nonempty(s@, '.');
    }
    let count = pieces.len();
    if count > 3 {
        return None;
    }
    let major = match digits_u64_in(&cs, pieces[0].0, pieces[0].1) {
        Some(v) => v,
        None => {
            return None;
        },
    };
    let mut minor: u64 = 0;
    if count > 1 {
        match digits_u64_in(&cs, pieces[1].0, pieces[1].1) {
            Some(v) => {
                minor = v;
            },
            None => {
                return None;
            },
        }
    }
    let mut patch: u64 = 0;
    if count > 2 {
        match digits_u64_in(&cs, pieces[2].0, pieces[2].1) {
            Some(v) => {
                patch = v;
            },
            None => {
                return None;
            },
        }
    }
    Some((major, minor, patch))
}

pub proof fn lemma_split_without_sep(x: Seq<char>, sep: char)
    requires
        forall|i: int| 0 <= i < x.len() ==> x[i] != sep,
    ensures
        split(x, sep) == seq![x],
    decreases x.len(),
{
    if x.len() == 0 {
        assert(x =~= Seq::<char>::empty());
    } else {
        lemma_split_without_sep(x.drop_last(), sep);
        assert(x.drop_last().push(x.last()) =~= x);
        assert(split(x, sep) =~= seq![x]);
    }
}

pub proof fn lemma_split_after_sep(x: Seq<char>, y: Seq<char>, sep: char)
    requires
        forall|i: int| 0 <= i < y.len() ==> y[i] != sep,
    ensures
        split(x + seq![sep] + y, sep) == split(x, sep).push(y),
    decreases y.len(),
{
    let z = x + seq![sep] + y;
    if y.len() == 0 {
        assert(z.drop_last() =~= x);
        assert(z =~= x + seq![sep]);
        assert(y =~= Seq::<char>::empty());
    } else {
        lemma_split_after_sep(x, y.drop_last(), sep);
        assert(z.drop_last() =~= x + seq![sep] + y.drop_last());
        assert(z.last() == y.last());
        assert(y.drop_last().push(y.last()) =~= y);
        assert(split(z, sep) =~= split(x, sep).push(y));
    }
}

/// Every string of the form `<int>[.<int>[.<int>]]` reads as the semantic version of those
/// integers, with missing components read as zero.
pub proof fn lemma_semantic_form(parts: Seq<Seq<char>>)
    requires
        1 <= parts.len() <= 3,
        forall|i: int| 0 <= i < parts.len() ==> is_u64_digits(#[trigger] parts[i]),
    ensures
        spec_from_string(dotted(parts)) == SpecVersionType::Semantic(
            digits_value(parts[0]) as u64,
            if parts.len() > 1 {
                digits_value(parts[1]) as u64
            } else {
                0
            },
            if parts.len() > 2 {
                digits_value(parts[2]) as u64
            } else {
                0
            },
        ),
{
    assert forall|i: int, k: int| 0 <= i < parts.len() && 0 <= k < parts[i].len() implies #[trigger] parts[i][k]
        != '.' by {
        assert(is_u64_digits(parts[i]));
        assert(is_digit(parts[i][k]));
    }
    let s = dotted(parts);
    let first = parts[0];
    lemma_split_without_sep(first, '.');
    assert(dotted(parts.subrange(0, 1)) == first);
    if parts.len() >= 2 {
        let second = parts[1];
        assert(parts.subrange(0, 2).drop_last() =~= parts.subrange(0, 1));
        lemma_split_after_sep(first, second, '.');
        assert(dotted(parts.subrange(0, 2)) == first + seq!['.'] + second);
        if parts.len() == 3 {
            let third = parts[2];
            assert(parts.drop_last() =~= parts.subrange(0, 2));
            lemma_split_after_sep(first + seq!['.'] + second, third, '.');
        } else {
            assert(parts =~= parts.subrange(0, 2));
        }
    } else {
        assert(parts =~= parts.subrange(0, 1));
    }
    assert(split(s, '.') =~= parts);
    assert forall|i: int| 0 <= i < parts.len() implies digits_u64(#[trigger] parts[i]) == Some(
        digits_value(parts[i]) as u64,
    ) by {
        assert(is_u64_digits(parts[i]));
    }
}

/// The decimal numeral of `n` is a non-empty run of digits whose value is `n`.
pub proof fn lemma_decimal_digits(n: nat)
    ensures
        decimal(n).len() > 0,
        all_digits(decimal(n)),
        digits_value(decimal(n)) == n,
    decreases n,
{
    let d = decimal(n);
    if n >= 10 {
        lemma_decimal_digits(n / 10);
        assert(d.drop_last() =~= decimal(n / 10));
        assert(digit_value(digit_char(n % 10)) == n % 10);
        assert(d.last() == digit_char(n % 10));
        assert(n == (n / 10) * 10 + n % 10) by (nonlinear_arith);
        assert(digits_value(d) == digits_value(d.drop_last()) * 10 + digit_value(d.last()));
        assert forall|i: int| 0 <= i < d.len() implies #[trigger] is_digit(d[i]) by {
            if i < d.len() - 1 {
                assert(d[i] == decimal(n / 10)[i]);
            }
        }
    } else {
        assert(digit_value(digit_char(n)) == n);
        assert(d.drop_last() =~= Seq::<char>::empty());
        assert(digits_value(d) == digits_value(d.drop_last()) * 10 + digit_value(d.last()));
        assert(digits_value(Seq::<char>::empty()) == 0);
    }
}

/// Reading back the displayed text of a semantic version gives the same version.
pub proof fn lemma_semantic_text_round_trip(a: u64, b: u64, c: u64)
    ensures
        spec_from_string(version_type_text(SpecVersionType::Semantic(a, b, c)))
            == SpecVersionType::Semantic(a, b, c),
{
    lemma_decimal_digits(a as nat);
    lemma_decimal_digits(b as nat);
    lemma_decimal_digits(c as nat);
    let parts = seq![decimal(a as nat), decimal(b as nat), decimal(c as nat)];
    reveal_strlit(".");
    assert("."@ =~= seq!['.']);
    assert(parts.drop_last() =~= seq![decimal(a as nat), decimal(b as nat)]);
    assert(seq![decimal(a as nat), decimal(b as nat)].drop_last() =~= seq![decimal(a as nat)]);
    let (da, db, dc) = (decimal(a as nat), decimal(b as nat), decimal(c as nat));
    assert(dotted(seq![da]) == da);
    assert(dotted(seq![da, db]) == dotted(seq![da]) + seq!['.'] + db);
    assert(dotted(parts) == dotted(seq![da, db]) + seq!['.'] + dc);
    assert(dotted(parts) =~= version_type_text(SpecVersionType::Semantic(a, b, c)));
    assert forall|i: int| 0 <= i < parts.len() implies is_u64_digits(#[trigger] parts[i]) by {}
    lemma_semantic_form(parts);
}

/// Reading back the displayed text of a custom version, whose text does not read as a
/// version number, gives the same version.
pub proof fn lemma_custom_text_round_trip(t: Seq<char>)
    requires
        spec_parse_version(t) is None,
    ensures
        spec_from_string(version_type_text(SpecVersionType::Custom(t)))
            == SpecVersionType::Custom(t),
{
}

/// Text that does not read as a version number stays a custom version, unchanged.
pub proof fn lemma_other_text_custom(s: Seq<char>)
    requires
        spec_parse_version(s) is None,
    ensures
        spec_from_string(s) == SpecVersionType::Custom(s),
{
}


} // verus!
