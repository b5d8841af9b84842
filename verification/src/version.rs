//! mirakc version information and its update status.

use crate::text::{decimal_string, decimal_text, seq_contains_seq, str_contains};
use vstd::prelude::*;

verus! {

/// The plain content of a `semver::Version`: its three numeric components and
/// the text of its pre-release and build identifiers.
pub struct SemVerView {
    pub major: u64,
    pub minor: u64,
    pub patch: u64,
    pub pre: Seq<char>,
    pub build: Seq<char>,
}

/// What `semver::Version::parse` yields for a text: `None` where it returns
/// an error, else the content of the parsed version.
pub uninterp spec fn semver_parse(text: Seq<char>) -> Option<SemVerView>;

/// Whether `a >= b` in the ordering of `semver::Version`, for the versions
/// with contents `a` and `b`.
pub uninterp spec fn semver_ge(a: SemVerView, b: SemVerView) -> bool;

/// Lexicographic `>=` on (major, minor, patch).
pub open spec fn core_ge(a: SemVerView, b: SemVerView) -> bool {
    ||| a.major > b.major
    ||| (a.major == b.major && a.minor > b.minor)
    ||| (a.major == b.major && a.minor == b.minor && a.patch >= b.patch)
}

/// (major, minor, patch) agree.
pub open spec fn same_core(a: SemVerView, b: SemVerView) -> bool {
    a.major == b.major && a.minor == b.minor && a.patch == b.patch
}

/// A parsed semantic version. It keeps the `semver::Version` that the parser
/// returned, together with the plain values that the status logic reads.
/// The view holds those plain values only: the kept `semver::Version` is opaque
/// here, and the one place that builds a `SemVer`, `parse_semver`, fills both
/// from the same parse.
pub struct SemVer {
    major: u64,
    minor: u64,
    patch: u64,
    pre: String,
    build: String,
    version: semver::Version,
}

impl View for SemVer {
    type V = SemVerView;

    closed spec fn view(&self) -> SemVerView {
        SemVerView {
            major: self.major,
            minor: self.minor,
            patch: self.patch,
            pre: self.pre@,
            build: self.build@,
        }
    }
}

impl SemVer {
    /// The numeric core as text: `major.minor.patch`.
    pub fn core_string(&self) -> (r: String)
        ensures
            r@ == core_text(self@),
    {
        decimal_string(self.major).concat(".").concat(decimal_string(self.minor).as_str()).concat(
            ".",
        ).concat(decimal_string(self.patch).as_str())
    }

    /// The major version number.
    pub fn major(&self) -> (r: u64)
        ensures
            r == self@.major,
    {
        self.major
    }

    /// The minor version number.
    pub fn minor(&self) -> (r: u64)
        ensures
            r == self@.minor,
    {
        self.minor
    }

    /// The patch version number.
    pub fn patch(&self) -> (r: u64)
        ensures
            r == self@.patch,
    {
        self.patch
    }

    /// The pre-release identifiers, as text (empty when there are none).
    pub fn pre(&self) -> (r: &str)
        ensures
            r@ == self@.pre,
    {
        self.pre.as_str()
    }

    /// The build metadata, as text (empty when there is none).
    pub fn build(&self) -> (r: &str)
        ensures
            r@ == self@.build,
    {
        self.build.as_str()
    }

    /// The `semver::Version` that the parser returned.
    pub closed spec fn parsed_version(&self) -> semver::Version {
        self.version
    }

    /// The underlying `semver::Version`.
    pub fn as_semver(&self) -> (r: &semver::Version)
        ensures
            *r == self.parsed_version(),
    {
        &self.version
    }
}

/// Calls `semver::Version::parse`. The contract claims that the call succeeds
/// exactly where the name `semver_parse` has a value, and that the fields
/// copied out of the parsed version are that value.
#[verifier::external_body]
fn parse_semver(text: &str) -> (r: Result<SemVer, semver::Error>)
    ensures
        r is Ok <==> semver_parse(text@) is Some,
        r matches Ok(v) ==> semver_parse(text@) == Some(v@),
{
    match semver::Version::parse(text) {
        Ok(v) => Ok(
            SemVer {
                major: v.major,
                minor: v.minor,
                patch: v.patch,
                pre: v.pre.as_str().to_string(),
                build: v.build.as_str().to_string(),
                version: v,
            },
        ),
        Err(e) => Err(e),
    }
}

/// Calls `>=` on two `semver::Version`s. Their ordering is derived: it compares
/// major, minor and patch first, then pre-release and build. The contract
/// claims the result is the name `semver_ge`, that it follows the numeric
/// components where they differ, that with equal numeric components a
/// pre-release sorts below the release, and that a version is `>=` itself.
#[verifier::external_body]
fn semver_version_ge(a: &SemVer, b: &SemVer) -> (r: bool)
    ensures
        r == semver_ge(a@, b@),
        !same_core(a@, b@) ==> r == core_ge(a@, b@),
        same_core(a@, b@) && a@.pre.len() > 0 && b@.pre.len() == 0 ==> !r,
        same_core(a@, b@) && a@.pre.len() == 0 && b@.pre.len() > 0 ==> r,
        a@ == b@ ==> r,
{
    a.version >= b.version
}

/// mirakc's version information.
#[derive(Debug, Clone, PartialEq)]
pub struct Version {
    /// The running version.
    pub current: String,
    /// The newest released version.
    pub latest: String,
}

/// mirakc's version information, as received from its API.
#[derive(Debug, Clone, PartialEq)]
pub struct VersionDto {
    /// The running version.
    pub current: String,
    /// The newest released version.
    pub latest: String,
}

/// How the running version relates to the newest release.
#[derive(Debug, Clone, Copy, PartialEq, Eq, Structural)]
pub enum VersionStatus {
    /// Up to date.
    UpToDate,
    /// A newer patch release exists.
    PatchUpdate,
    /// A newer minor release exists.
    MinorUpdate,
    /// A newer major release exists.
    MajorUpdate,
    /// A development build is running.
    Development,
}

/// A version text that `semver` could not parse.
#[derive(Debug)]
pub enum VersionError {
    Parse(semver::Error),
}

/// The marker that development builds carry in their version text.
pub open spec fn dev_marker() -> Seq<char> {
    "-dev."@
}

/// Whether a version text names a development build.
pub open spec fn spec_is_dev(current: Seq<char>) -> bool {
    seq_contains_seq(current, dev_marker())
}

/// Both version texts parse.
pub open spec fn both_parse(current: Seq<char>, latest: Seq<char>) -> bool {
    semver_parse(current) is Some && semver_parse(latest) is Some
}

/// The numeric core of a version as text: `major.minor.patch`.
pub open spec fn core_text(v: SemVerView) -> Seq<char> {
    decimal_text(v.major as nat) + "."@ + decimal_text(v.minor as nat) + "."@ + decimal_text(
        v.patch as nat,
    )
}

/// The two lines that report the base of a development build against the
/// newest release.
pub open spec fn dev_base_lines(c: SemVerView, l: SemVerView) -> (Seq<char>, Seq<char>) {
    ("  開発版のベースバージョン: "@ + core_text(c), "  最新安定版: "@ + core_text(l))
}

/// The status of two parsed versions.
pub open spec fn status_of(cur: SemVerView, lat: SemVerView) -> VersionStatus {
    if semver_ge(cur, lat) {
        VersionStatus::UpToDate
    } else if cur.major < lat.major {
        VersionStatus::MajorUpdate
    } else if cur.minor < lat.minor {
        VersionStatus::MinorUpdate
    } else if cur.patch < lat.patch {
        VersionStatus::PatchUpdate
    } else {
        VersionStatus::UpToDate
    }
}

/// The status of version texts that are not a development build and both parse.
pub open spec fn spec_status(current: Seq<char>, latest: Seq<char>) -> VersionStatus {
    status_of(semver_parse(current).unwrap(), semver_parse(latest).unwrap())
}

impl From<VersionDto> for Version {
    fn from(dto: VersionDto) -> (r: Version)
        ensures
            r.current@ == dto.current@,
            r.latest@ == dto.latest@,
    {
        Version { current: dto.current, latest: dto.latest }
    }
}

impl vstd::std_specs::convert::FromSpecImpl<VersionDto> for Version {
    open spec fn obeys_from_spec() -> bool {
        true
    }

    open spec fn from_spec(dto: VersionDto) -> Version {
        Version { current: dto.current, latest: dto.latest }
    }
}

impl Version {
    /// Parses both version texts, the running one first.
    pub fn parse_versions(&self) -> (r: Result<(SemVer, SemVer), VersionError>)
        ensures
            r is Ok <==> both_parse(self.current@, self.latest@),
            r matches Ok((c, l)) ==> semver_parse(self.current@) == Some(c@) && semver_parse(
                self.latest@,
            ) == Some(l@),
    {
        let current = match parse_semver(self.current.as_str()) {
            Ok(v) => v,
            Err(e) => return Err(VersionError::Parse(e)),
        };
        let latest = match parse_semver(self.latest.as_str()) {
            Ok(v) => v,
            Err(e) => return Err(VersionError::Parse(e)),
        };
        Ok((current, latest))
    }

    /// Whether the running version is a development build.
    pub fn is_dev_version(&self) -> (r: bool)
        ensures
            r == spec_is_dev(self.current@),
    {
        str_contains(self.current.as_str(), "-dev.")
    }

    /// Whether the running version is at least the newest release.
    pub fn is_latest(&self) -> (r: Result<bool, VersionError>)
        ensures
            r is Ok <==> both_parse(self.current@, self.latest@),
            r matches Ok(b) ==> b == semver_ge(
                semver_parse(self.current@).unwrap(),
                semver_parse(self.latest@).unwrap(),
            ),
            r matches Ok(b) ==> {
                let c = semver_parse(self.current@).unwrap();
                let l = semver_parse(self.latest@).unwrap();
                &&& !same_core(c, l) ==> b == core_ge(c, l)
                &&& same_core(c, l) && c.pre.len() > 0 && l.pre.len() == 0 ==> !b
                &&& same_core(c, l) && c.pre.len() == 0 && l.pre.len() > 0 ==> b
                &&& c == l ==> b
            },
            both_parse(self.current@, self.latest@) && semver_parse(self.current@)
                == semver_parse(self.latest@) ==> r == Ok::<bool, VersionError>(true),
    {
        let (current, latest) = self.parse_versions()?;
        Ok(semver_version_ge(&current, &latest))
    }

    /// For a development build whose base differs from the newest release in
    /// major, minor or patch: the two lines that report both. `None` where a
    /// text does not parse or the numeric cores agree.
    pub fn dev_base_report(&self) -> (r: Option<(String, String)>)
        ensures
            r is Some <==> both_parse(self.current@, self.latest@) && !same_core(
                semver_parse(self.current@).unwrap(),
                semver_parse(self.latest@).unwrap(),
            ),
            r matches Some((a, b)) ==> (a@, b@) == dev_base_lines(
                semver_parse(self.current@).unwrap(),
                semver_parse(self.latest@).unwrap(),
            ),
    {
        let (current, latest) = match self.parse_versions() {
            Ok(p) => p,
            Err(_) => return None,
        };
        if current.major() != latest.major() || current.minor() != latest.minor()
            || current.patch() != latest.patch() {
            let a = String::from_str("  開発版のベースバージョン: ").concat(
                current.core_string().as_str(),
            );
            let b = String::from_str("  最新安定版: ").concat(latest.core_string().as_str());
            Some((a, b))
        } else {
            None
        }
    }

    /// The update status of the running version.
    pub fn version_status(&self) -> (r: Result<VersionStatus, VersionError>)
        ensures
            spec_is_dev(self.current@) ==> r == Ok::<VersionStatus, VersionError>(VersionStatus::Development),
            !spec_is_dev(self.current@) ==> (r is Ok <==> both_parse(
                self.current@,
                self.latest@,
            )),
            !spec_is_dev(self.current@) ==> (r matches Ok(s) ==> s == spec_status(
                self.current@,
                self.latest@,
            )),
            // The status names the most significant component in which the
            // running version is behind the newest release.
            !spec_is_dev(self.current@) ==> (r matches Ok(s) ==> {
                let c = semver_parse(self.current@).unwrap();
                let l = semver_parse(self.latest@).unwrap();
                &&& (s == VersionStatus::UpToDate <==> core_ge(c, l))
                &&& (s == VersionStatus::MajorUpdate <==> c.major < l.major)
                &&& (s == VersionStatus::MinorUpdate <==> c.major == l.major && c.minor < l.minor)
                &&& (s == VersionStatus::PatchUpdate <==> same_core(c, l) == false && c.major
                    == l.major && c.minor == l.minor && c.patch < l.patch)
                &&& s != VersionStatus::Development
            }),
    {
        if self.is_dev_version() {
            return Ok(VersionStatus::Development);
        }
        let (current, latest) = self.parse_versions()?;
        if semver_version_ge(&current, &latest) {
            return Ok(VersionStatus::UpToDate);
        }
        if current.major() < latest.major() {
            Ok(VersionStatus::MajorUpdate)
        } else if current.minor() < latest.minor() {
            Ok(VersionStatus::MinorUpdate)
        } else if current.patch() < latest.patch() {
            Ok(VersionStatus::PatchUpdate)
        } else {
            Ok(VersionStatus::UpToDate)
        }
    }
}

/// A running version that is at least the newest release, as `is_latest`
/// reports it, has the status "up to date" unless it is a development build.
pub proof fn lemma_latest_is_up_to_date(current: Seq<char>, latest: Seq<char>)
    requires
        both_parse(current, latest),
        semver_ge(semver_parse(current).unwrap(), semver_parse(latest).unwrap()),
    ensures
        !spec_is_dev(current) ==> spec_status(current, latest) == VersionStatus::UpToDate,
{
}

} // verus!
