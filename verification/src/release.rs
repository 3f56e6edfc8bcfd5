pub mod version;

use crate::release::version::{
    core_greater, parse_version, semver_greater, semver_parse, version_greater,
};
use crate::text::{remove_char, without_char};
use vstd::prelude::*;

verus! {

/// Why the check for a new release failed.
#[derive(Debug, Clone, Copy, PartialEq, Eq, Structural)]
pub enum UpdateCheckError {
    /// The release's tag is no version.
    InvalidRelease,
    /// The running version is no version.
    InvalidCurrent,
}

/// The version a release tag names: the tag without its `v`s.
pub open spec fn tag_version(tag: Seq<char>) -> Seq<char> {
    without_char(tag, 'v')
}

/// Whether the latest release, named by its tag (such as `v0.5.1`), is newer
/// than the running version: the tag without `v` and the running version
/// are both read as semantic versions and compared.
pub fn release_is_newer(tag_name: &str, current: &str) -> (r: Result<bool, UpdateCheckError>)
    ensures
        semver_parse(tag_version(tag_name@)) is None ==> r == Err::<bool, UpdateCheckError>(
            UpdateCheckError::InvalidRelease,
        ),
        semver_parse(tag_version(tag_name@)) is Some && semver_parse(current@) is None ==> r
            == Err::<bool, UpdateCheckError>(UpdateCheckError::InvalidCurrent),
        semver_parse(tag_version(tag_name@)) is Some && semver_parse(current@) is Some ==> r
            == Ok::<bool, UpdateCheckError>(semver_greater(tag_version(tag_name@), current@)),
        semver_parse(tag_version(tag_name@)) is Some && semver_parse(current@) is Some
            && semver_parse(tag_version(tag_name@)).unwrap() != semver_parse(current@).unwrap()
            ==> r == Ok::<bool, UpdateCheckError>(
            core_greater(
                semver_parse(tag_version(tag_name@)).unwrap(),
                semver_parse(current@).unwrap(),
            ),
        ),
{
    let stripped = remove_char(tag_name, 'v');
    let latest = match parse_version(stripped.as_str()) {
        Ok(v) => v,
        Err(_) => return Err(UpdateCheckError::InvalidRelease),
    };
    let running = match parse_version(current) {
        Ok(v) => v,
        Err(_) => return Err(UpdateCheckError::InvalidCurrent),
    };
    Ok(version_greater(&latest, &running))
}

} // verus!
