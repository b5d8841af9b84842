//! Use cases that sit between the ports and the domain logic.

use crate::version::{
    both_parse, core_ge, semver_parse, spec_is_dev, spec_status, Version, VersionError,
    VersionStatus,
};
use vstd::prelude::*;

verus! {

/// Checks the version of mirakc that a repository reports.
pub struct VersionUseCase<R> {
    repository: R,
}

impl<R> VersionUseCase<R> {
    /// The repository that reports the version.
    pub closed spec fn spec_repository(&self) -> R {
        self.repository
    }

    /// A use case over a version repository.
    pub fn new(repository: R) -> (r: VersionUseCase<R>)
        ensures
            r.spec_repository() == repository,
    {
        VersionUseCase { repository }
    }

    /// The repository that reports the version.
    pub fn repository(&self) -> (r: &R)
        ensures
            *r == self.spec_repository(),
    {
        &self.repository
    }

    /// The version that the repository reported, with its update status.
    pub fn version_status_of(&self, version: Version) -> (r: Result<
        (Version, VersionStatus),
        VersionError,
    >)
        ensures
            spec_is_dev(version.current@) ==> (r matches Ok((v, s)) && v == version && s
                == VersionStatus::Development),
            !spec_is_dev(version.current@) ==> (r is Ok <==> both_parse(
                version.current@,
                version.latest@,
            )),
            !spec_is_dev(version.current@) ==> (r matches Ok((v, s)) ==> v == version && s
                == spec_status(version.current@, version.latest@)),
            // The status names the most significant component in which the
            // running version is behind the newest release.
            !spec_is_dev(version.current@) ==> (r matches Ok((v, s)) ==> {
                let c = semver_parse(version.current@).unwrap();
                let l = semver_parse(version.latest@).unwrap();
                &&& (s == VersionStatus::UpToDate <==> core_ge(c, l))
                &&& (s == VersionStatus::MajorUpdate <==> c.major < l.major)
                &&& (s == VersionStatus::MinorUpdate <==> c.major == l.major && c.minor < l.minor)
                &&& (s == VersionStatus::PatchUpdate <==> c.major == l.major && c.minor == l.minor
                    && c.patch < l.patch)
                &&& s != VersionStatus::Development
            }),
    {
        let status = version.version_status()?;
        Ok((version, status))
    }
}

/// Copies mirakc's events into JetStream, through its two adapters.
pub struct EventsDomain<M, N> {
    mirakc_adapter: M,
    nats_adapter: N,
}

impl<M, N> EventsDomain<M, N> {
    /// The adapter for mirakc.
    pub closed spec fn spec_mirakc_adapter(&self) -> M {
        self.mirakc_adapter
    }

    /// The adapter for NATS.
    pub closed spec fn spec_nats_adapter(&self) -> N {
        self.nats_adapter
    }

    /// A domain over the two adapters.
    pub fn new(mirakc_adapter: M, nats_adapter: N) -> (r: EventsDomain<M, N>)
        ensures
            r.spec_mirakc_adapter() == mirakc_adapter,
            r.spec_nats_adapter() == nats_adapter,
    {
        EventsDomain { mirakc_adapter, nats_adapter }
    }

    /// The adapter for mirakc.
    pub fn mirakc_adapter(&self) -> (r: &M)
        ensures
            *r == self.spec_mirakc_adapter(),
    {
        &self.mirakc_adapter
    }

    /// The adapter for NATS.
    pub fn nats_adapter(&self) -> (r: &N)
        ensures
            *r == self.spec_nats_adapter(),
    {
        &self.nats_adapter
    }
}

} // verus!
