use mc_server_manager::error::LibError;
use mc_server_manager::download::DownloadResult;
use mc_server_manager::java::{
    check_digest, verify_archive, JavaVersion, ToolchainAction, ToolchainEvent, ToolchainFetch, ToolchainStage,
    LINUX_JAVA_17_SHA256, LINUX_JAVA_17_URL, LINUX_JAVA_21_SHA256, LINUX_JAVA_21_URL,
};

const HELLO_SHA256: &str = "2cf24dba5fb0a30e26e83b2ac5b9e29e1b161e5c1fa7425e73043362938b9824";
const EMPTY_SHA256: &str = "e3b0c44298fc1c149afbf4c8996fb92427ae41e4649b934ca495991b7852b855";

#[test]
fn archive_with_correct_digest_verifies() {
    assert!(verify_archive(b"hello", HELLO_SHA256).is_ok());
    assert!(verify_archive(b"", EMPTY_SHA256).is_ok());
}

#[test]
fn archive_with_flipped_byte_is_mismatch() {
    let mut data = b"hello".to_vec();
    data[2] ^= 0x01;
    match verify_archive(&data, HELLO_SHA256) {
        Err(LibError::Integrity { expected, actual }) => {
            assert_eq!(expected, HELLO_SHA256);
            assert_ne!(actual, HELLO_SHA256);
            assert_eq!(actual.len(), 64);
        }
        other => panic!("expected a mismatch, got {:?}", other),
    }
}

#[test]
fn digest_comparison_is_case_sensitive() {
    assert!(check_digest("abc", "abc").is_ok());
    assert!(matches!(check_digest("ABC", "abc"), Err(LibError::Integrity { .. })));
    assert!(verify_archive(b"hello", &HELLO_SHA256.to_uppercase()).is_err());
}

#[test]
fn java_locations() {
    assert_eq!(JavaVersion::Java17.label(), "Java17");
    assert_eq!(JavaVersion::Java8.archive_path(), "Java8/java.tar.gz");
    let (url, sha) = JavaVersion::Java17.linux_urls();
    assert_eq!(url, LINUX_JAVA_17_URL);
    assert_eq!(sha, LINUX_JAVA_17_SHA256);
}

#[test]
fn toolchain_acquisition_verifies_before_done() {
    let (mut t, a) = ToolchainFetch::start(JavaVersion::Java21);
    match a {
        ToolchainAction::Download { url, path } => {
            assert_eq!(url, LINUX_JAVA_21_URL);
            assert_eq!(path, "Java21/java.tar.gz");
        }
        _ => panic!("expected a download"),
    }
    let done = DownloadResult { bytes_written: 5, destination: "/j/Java21/java.tar.gz".to_string() };
    assert!(matches!(t.step(ToolchainEvent::Downloaded(done)), ToolchainAction::FetchDigest(ref u) if u == LINUX_JAVA_21_SHA256));
    let ok = t.step(ToolchainEvent::Digest { published: HELLO_SHA256.to_string(), archive: b"hello".to_vec() });
    assert!(matches!(ok, ToolchainAction::Done));
    assert_eq!(t.stage, ToolchainStage::Verified);
}

#[test]
fn toolchain_acquisition_with_flipped_byte_fails() {
    let (mut t, _) = ToolchainFetch::start(JavaVersion::Java8);
    let done = DownloadResult { bytes_written: 5, destination: "x".to_string() };
    t.step(ToolchainEvent::Downloaded(done));
    let bad = t.step(ToolchainEvent::Digest { published: HELLO_SHA256.to_string(), archive: b"hellp".to_vec() });
    assert!(matches!(bad, ToolchainAction::Fail(LibError::Integrity { .. })));
    assert_eq!(t.stage, ToolchainStage::Failed);
    assert!(matches!(
        t.step(ToolchainEvent::Digest { published: HELLO_SHA256.to_string(), archive: b"hello".to_vec() }),
        ToolchainAction::Fail(LibError::Misc(_))
    ));
    assert_eq!(t.stage, ToolchainStage::Failed);
}

#[test]
fn toolchain_acquisition_uses_given_addresses() {
    let (mut t, a) = ToolchainFetch::start_with(
        JavaVersion::Java25,
        "https://mirror.example/jdk25.tar.gz".to_string(),
        "https://mirror.example/jdk25.sha256".to_string(),
    );
    assert!(matches!(a, ToolchainAction::Download { ref url, ref path }
        if url == "https://mirror.example/jdk25.tar.gz" && path == "Java25/java.tar.gz"));
    let done = DownloadResult { bytes_written: 1, destination: "x".to_string() };
    assert!(matches!(t.step(ToolchainEvent::Downloaded(done)),
        ToolchainAction::FetchDigest(ref u) if u == "https://mirror.example/jdk25.sha256"));
}
