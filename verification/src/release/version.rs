use vstd::prelude::*;

verus! {

#[verifier::external_type_specification]
#[verifier::external_body]
pub struct ExSemverVersion(semver::Version);

#[verifier::external_type_specification]
#[verifier::external_body]
pub struct ExSemverError(semver::Error);

/// What `semver::Version::parse` makes of a text: `None` when it fails,
/// else the version's major, minor and patch numbers.
pub uninterp spec fn semver_parse(text: Seq<char>) -> Option<(u64, u64, u64)>;

/// Whether the version parsed from `a` is greater than the one parsed from
/// `b` in the order of `semver::Version`.
pub uninterp spec fn semver_greater(a: Seq<char>, b: Seq<char>) -> bool;

/// Lexicographic order of (major, minor, patch).
pub open spec fn core_greater(a: (u64, u64, u64), b: (u64, u64, u64)) -> bool {
    a.0 > b.0 || (a.0 == b.0 && (a.1 > b.1 || (a.1 == b.1 && a.2 > b.2)))
}

/// A version and the text it was parsed from. Only [`parse_version`] makes
/// one, so the text is always the one the version came from.
pub struct ParsedVersion {
    version: semver::Version,
    source: String,
}

impl ParsedVersion {
    /// The text the version was parsed from.
    pub closed spec fn source(self) -> Seq<char> {
        self.source@
    }

    /// The version's major, minor and patch numbers.
    pub open spec fn numbers(self) -> (u64, u64, u64) {
        semver_parse(self.source()).unwrap()
    }
}

/// `semver::Version::parse`: the contract claims that whether it succeeds is
/// a function of the text (`semver_parse`), and that a parsed version keeps
/// the text it was parsed from.
#[verifier::external_body]
pub(crate) fn parse_version(text: &str) -> (r: Result<ParsedVersion, semver::Error>)
    ensures
        r is Ok <==> semver_parse(text@) is Some,
        r matches Ok(v) ==> v.source() == text@,
{
    semver::Version::parse(text).map(|version| ParsedVersion { version, source: text.to_string() })
}

/// `>` on `semver::Version`: the contract claims that the result is a
/// function of the two parsed texts (`semver_greater`), and, as the derived
/// order of `semver::Version` compares major, minor and patch first, that
/// versions with different numbers are ordered by those numbers. How
/// pre-release and build identifiers order versions with equal numbers is
/// left to the name.
#[verifier::external_body]
pub(crate) fn version_greater(a: &ParsedVersion, b: &ParsedVersion) -> (r: bool)
    ensures
        r == semver_greater(a.source(), b.source()),
        semver_parse(a.source()) is Some && semver_parse(b.source()) is Some && a.numbers()
            != b.numbers() ==> r == core_greater(a.numbers(), b.numbers()),
{
    a.version > b.version
}

} // verus!
