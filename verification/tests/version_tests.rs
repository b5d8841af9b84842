use kurec::usecases::VersionUseCase;
use kurec::version::{Version, VersionDto, VersionStatus};

fn version(current: &str, latest: &str) -> Version {
    Version {
        current: current.to_string(),
        latest: latest.to_string(),
    }
}

#[test]
fn test_is_dev_version() {
    let dev_version = version("4.0.0-dev.0", "3.9.0");
    assert!(dev_version.is_dev_version());

    let stable_version = version("3.9.0", "3.9.0");
    assert!(!stable_version.is_dev_version());
}

#[test]
fn test_parse_versions() {
    let v = version("1.2.3", "2.3.4");
    let (current, latest) = v.parse_versions().unwrap();
    assert_eq!(current.major(), 1);
    assert_eq!(current.minor(), 2);
    assert_eq!(current.patch(), 3);
    assert_eq!(latest.major(), 2);
    assert_eq!(latest.minor(), 3);
    assert_eq!(latest.patch(), 4);
}

#[test]
fn test_parse_dev_version() {
    let v = version("1.2.3-dev.4", "1.2.0");
    let (current, _latest) = v.parse_versions().unwrap();
    assert_eq!(current.major(), 1);
    assert_eq!(current.minor(), 2);
    assert_eq!(current.patch(), 3);
    assert!(current.as_semver().pre.len() > 0);
    assert_eq!(current.as_semver().pre.to_string(), "dev.4");
    assert_eq!(current.pre(), "dev.4");
}

#[test]
fn test_version_status_dev() {
    let dev_version = version("4.0.0-dev.0", "3.9.0");
    assert_eq!(dev_version.version_status().unwrap(), VersionStatus::Development);
}

#[test]
fn test_version_status_up_to_date() {
    let v = version("1.0.0", "1.0.0");
    assert_eq!(v.version_status().unwrap(), VersionStatus::UpToDate);
}

#[test]
fn test_version_status_patch_update() {
    let v = version("1.0.0", "1.0.1");
    assert_eq!(v.version_status().unwrap(), VersionStatus::PatchUpdate);
}

#[test]
fn test_version_status_minor_update() {
    let v = version("1.0.0", "1.1.0");
    assert_eq!(v.version_status().unwrap(), VersionStatus::MinorUpdate);
}

#[test]
fn test_version_status_major_update() {
    let v = version("1.0.0", "2.0.0");
    assert_eq!(v.version_status().unwrap(), VersionStatus::MajorUpdate);
}

#[test]
fn test_invalid_version_format() {
    let invalid_version = version("invalid", "1.0.0");
    assert!(invalid_version.parse_versions().is_err());
    assert!(invalid_version.version_status().is_err());
}

#[test]
fn test_get_version_status_up_to_date() {
    let usecase = VersionUseCase::new(());
    let (v, status) = usecase.version_status_of(version("1.0.0", "1.0.0")).unwrap();
    assert_eq!(v.current, "1.0.0");
    assert_eq!(v.latest, "1.0.0");
    assert_eq!(status, VersionStatus::UpToDate);
}

#[test]
fn test_get_version_status_update_available() {
    let usecase = VersionUseCase::new(());
    let (v, status) = usecase.version_status_of(version("1.0.0", "2.0.0")).unwrap();
    assert_eq!(v.current, "1.0.0");
    assert_eq!(v.latest, "2.0.0");
    assert_eq!(status, VersionStatus::MajorUpdate);
}

#[test]
fn test_get_version_status_dev_version() {
    let usecase = VersionUseCase::new(());
    let (v, status) = usecase.version_status_of(version("2.0.0-dev.1", "1.9.0")).unwrap();
    assert_eq!(v.current, "2.0.0-dev.1");
    assert_eq!(v.latest, "1.9.0");
    assert_eq!(status, VersionStatus::Development);
}

#[test]
fn version_is_latest_compares_whole_versions() {
    assert!(version("1.2.3", "1.2.3").is_latest().unwrap());
    assert!(version("2.0.0", "1.9.9").is_latest().unwrap());
    assert!(!version("1.2.3", "1.2.4").is_latest().unwrap());
    // A pre-release precedes its release.
    assert!(!version("1.2.3-rc.1", "1.2.3").is_latest().unwrap());
    assert!(version("1.2.3", "garbage").is_latest().is_err());
}

#[test]
fn version_status_prerelease_of_latest_is_up_to_date() {
    // Same numeric core, so the status is up to date even though the
    // pre-release precedes the release.
    assert_eq!(
        version("1.2.3-rc.1", "1.2.3").version_status().unwrap(),
        VersionStatus::UpToDate
    );
}

#[test]
fn version_status_ahead_is_up_to_date() {
    assert_eq!(version("3.0.0", "2.9.9").version_status().unwrap(), VersionStatus::UpToDate);
    assert_eq!(version("1.5.0", "2.0.0").version_status().unwrap(), VersionStatus::MajorUpdate);
    assert_eq!(version("2.5.9", "2.6.0").version_status().unwrap(), VersionStatus::MinorUpdate);
}

#[test]
fn version_status_dev_build_never_fails() {
    assert_eq!(
        version("x-dev.1", "not a version").version_status().unwrap(),
        VersionStatus::Development
    );
    assert!(version("1.0.0", "not a version").version_status().is_err());
}

#[test]
fn version_from_dto_keeps_both_texts() {
    let dto = VersionDto {
        current: "1.0.0".to_string(),
        latest: "1.1.0".to_string(),
    };
    let v: Version = Version::from(dto);
    assert_eq!(v.current, "1.0.0");
    assert_eq!(v.latest, "1.1.0");
}

#[test]
fn semver_accessors_report_parts() {
    let (current, latest) = version("1.2.3-alpha.1+build.5", "0.0.1").parse_versions().unwrap();
    assert_eq!(current.pre(), "alpha.1");
    assert_eq!(current.build(), "build.5");
    assert_eq!(latest.pre(), "");
    assert_eq!(latest.patch(), 1);
}

#[test]
fn core_string_drops_pre_release_and_build() {
    let (current, latest) = version("1.2.3-alpha.1+build.5", "10.0.7").parse_versions().unwrap();
    assert_eq!(current.core_string(), "1.2.3");
    assert_eq!(latest.core_string(), "10.0.7");
}

#[test]
fn dev_build_reports_its_base_version() {
    assert_eq!(
        version("4.0.0-dev.0", "3.9.0").dev_base_report(),
        Some((
            "  開発版のベースバージョン: 4.0.0".to_string(),
            "  最新安定版: 3.9.0".to_string()
        ))
    );
    // Same numeric core: nothing to report.
    assert_eq!(version("1.2.3-dev.1", "1.2.3").dev_base_report(), None);
    // Unparsable text: nothing to report.
    assert_eq!(version("dev", "1.2.3").dev_base_report(), None);
}

#[test]
fn a_version_is_at_least_itself() {
    assert!(version("1.2.3-rc.1+b.7", "1.2.3-rc.1+b.7").is_latest().unwrap());
    assert!(version("0.0.0", "0.0.0").is_latest().unwrap());
}

#[test]
fn versions_compare_by_their_texts() {
    let dto = VersionDto {
        current: "1.0.0".to_string(),
        latest: "1.1.0".to_string(),
    };
    assert_eq!(dto.clone(), dto);
    assert_eq!(Version::from(dto), version("1.0.0", "1.1.0"));
    assert_ne!(version("1.0.0", "1.1.0"), version("1.0.0", "1.2.0"));
}
