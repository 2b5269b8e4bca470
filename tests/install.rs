use executejs::install::{Install, InstallAction, InstallEvent, Phase};
use executejs::resolver::NpmResolver;
use std::io::Write;

fn resolver() -> NpmResolver {
    NpmResolver::with_cache_dir("/cache".to_string(), "https://reg.example".to_string())
}

fn gzip(data: &[u8]) -> Vec<u8> {
    let mut e = flate2::write::GzEncoder::new(Vec::new(), flate2::Compression::default());
    e.write_all(data).unwrap();
    e.finish().unwrap()
}

fn is_network(a: &InstallAction) -> bool {
    matches!(a, InstallAction::FetchMetadata { .. } | InstallAction::Download { .. })
}

const META: &str = r#"{"dist-tags": {"latest": "1.0.0"}, "versions": {"1.0.0": {"dist": {"tarball": "https://t/p-1.0.0.tgz"}}}}"#;

#[test]
fn cached_install_makes_no_network_call() {
    let r = resolver();
    let (mut inst, a) = Install::start(&r, "p", Some("1.0.0"));
    match &a {
        InstallAction::CheckCache { manifest } => assert_eq!(manifest, "/cache/p/1.0.0/package/package.json"),
        other => panic!("unexpected {:?}", other),
    }
    let a = inst.step(&r, InstallEvent::CacheChecked(true));
    assert!(!is_network(&a));
    match a {
        InstallAction::Finished { dir } => assert_eq!(dir, "/cache/p/1.0.0"),
        other => panic!("unexpected {:?}", other),
    }
    assert_eq!(inst.phase(), Phase::Finished);
}

#[test]
fn two_installs_download_once() {
    let r = resolver();
    let mut downloads = 0;
    let mut cached = false;
    for _ in 0..2 {
        let (mut inst, mut a) = Install::start(&r, "p", Some("1.0.0"));
        loop {
            if matches!(a, InstallAction::Download { .. }) {
                downloads += 1;
            }
            let event = match &a {
                InstallAction::CheckCache { .. } => InstallEvent::CacheChecked(cached),
                InstallAction::FetchMetadata { url } => {
                    assert_eq!(url, "https://reg.example/p");
                    InstallEvent::Metadata(Ok(META.to_string()))
                }
                InstallAction::Download { url } => {
                    assert_eq!(url, "https://t/p-1.0.0.tgz");
                    InstallEvent::Downloaded(Ok(gzip(b"tar bytes")))
                }
                InstallAction::Unpack { dir, archive } => {
                    assert_eq!(dir, "/cache/p/1.0.0");
                    assert_eq!(archive, b"tar bytes");
                    cached = true;
                    InstallEvent::Unpacked(Ok(()))
                }
                InstallAction::Finished { .. } | InstallAction::Failed { .. } => break,
            };
            a = inst.step(&r, event);
        }
        assert!(matches!(a, InstallAction::Finished { .. }));
    }
    assert_eq!(downloads, 1);
}

#[test]
fn latest_version_is_looked_up_first() {
    let r = resolver();
    let (mut inst, a) = Install::start(&r, "p", None);
    match &a {
        InstallAction::FetchMetadata { url } => assert_eq!(url, "https://reg.example/p"),
        other => panic!("unexpected {:?}", other),
    }
    assert_eq!(inst.phase(), Phase::AwaitLatest);
    let a = inst.step(&r, InstallEvent::Metadata(Ok(META.to_string())));
    match a {
        InstallAction::CheckCache { manifest } => assert_eq!(manifest, "/cache/p/1.0.0/package/package.json"),
        other => panic!("unexpected {:?}", other),
    }
}

#[test]
fn corrupt_tarball_fails() {
    let r = resolver();
    let (mut inst, _) = Install::start(&r, "p", Some("1.0.0"));
    inst.step(&r, InstallEvent::CacheChecked(false));
    inst.step(&r, InstallEvent::Metadata(Ok(META.to_string())));
    let a = inst.step(&r, InstallEvent::Downloaded(Ok(b"not gzip".to_vec())));
    match a {
        InstallAction::Failed { message } => assert_eq!(message, "tarball 압축 해제 실패"),
        other => panic!("unexpected {:?}", other),
    }
    assert_eq!(inst.phase(), Phase::Failed);
}

#[test]
fn missing_version_and_network_errors_fail() {
    let r = resolver();
    let (mut inst, _) = Install::start(&r, "p", Some("9.9.9"));
    inst.step(&r, InstallEvent::CacheChecked(false));
    match inst.step(&r, InstallEvent::Metadata(Ok(META.to_string()))) {
        InstallAction::Failed { message } => assert_eq!(message, "패키지 버전을 찾을 수 없습니다"),
        other => panic!("unexpected {:?}", other),
    }
    let (mut inst, _) = Install::start(&r, "p", None);
    match inst.step(&r, InstallEvent::Metadata(Err("connection refused".to_string()))) {
        InstallAction::Failed { message } => assert_eq!(message, "connection refused"),
        other => panic!("unexpected {:?}", other),
    }
}

#[test]
fn unexpected_event_fails() {
    let r = resolver();
    let (mut inst, _) = Install::start(&r, "p", Some("1.0.0"));
    match inst.step(&r, InstallEvent::Unpacked(Ok(()))) {
        InstallAction::Failed { message } => assert_eq!(message, "설치 단계와 맞지 않는 이벤트"),
        other => panic!("unexpected {:?}", other),
    }
}
