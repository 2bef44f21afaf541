use zig_installer::error::Error;
use zig_installer::manifest::{resolve, ArtifactDescriptor, ChannelEntry, ReleaseManifest};
use zig_installer::manifest::{CHANNEL, MANIFEST_URL};
use zig_installer::target::{Architecture, InstallTarget, Menu, OperatingSystem};

fn index_with(keys: &[(&str, &str)]) -> ReleaseManifest {
    let mut channel = ChannelEntry::new();
    for (key, url) in keys {
        channel.insert(key, ArtifactDescriptor::new(url));
    }
    let mut manifest = ReleaseManifest::new();
    manifest.insert("master", channel);
    manifest
}

fn complete_index() -> ReleaseManifest {
    index_with(&[
        ("x86_64-macos", "https://example.org/builds/zig-macos-x86_64.tar.xz"),
        ("aarch64-macos", "https://example.org/builds/zig-macos-aarch64.tar.xz"),
        ("x86_64-linux", "https://example.org/builds/zig-linux-x86_64.tar.xz"),
        ("riscv64-linux", "https://example.org/builds/zig-linux-riscv64.tar.xz"),
    ])
}

#[test]
fn constants_name_the_upstream_index() {
    assert_eq!(MANIFEST_URL, "https://ziglang.org/download/index.json");
    assert_eq!(CHANNEL, "master");
}

#[test]
fn target_keys_follow_the_table() {
    assert_eq!(InstallTarget::linux().key(), "x86_64-linux");
    assert_eq!(InstallTarget::macos(Architecture::X86_64).key(), "x86_64-macos");
    assert_eq!(InstallTarget::macos(Architecture::Aarch64).key(), "aarch64-macos");
}

#[test]
fn linux_key_ignores_the_architecture() {
    let odd = InstallTarget {
        operating_system: OperatingSystem::Linux,
        architecture: Architecture::Aarch64,
    };
    assert_eq!(odd.key(), "x86_64-linux");
}

#[test]
fn target_keys_are_pairwise_distinct() {
    let keys = vec![
        InstallTarget::linux().key(),
        InstallTarget::macos(Architecture::X86_64).key(),
        InstallTarget::macos(Architecture::Aarch64).key(),
    ];
    assert_ne!(keys[0], keys[1]);
    assert_ne!(keys[0], keys[2]);
    assert_ne!(keys[1], keys[2]);
}

#[test]
fn labels_are_the_menu_texts() {
    assert_eq!(Menu::Zig.label(), "Dowload latest Zig binary");
    assert_eq!(Menu::Quit.label(), "Quit");
    assert_eq!(OperatingSystem::Linux.label(), "Linux");
    assert_eq!(OperatingSystem::MacOS.label(), "Mac");
    assert_eq!(Architecture::X86_64.label(), "x86_64-macos");
    assert_eq!(Architecture::Aarch64.label(), "aarch64_macos");
}

#[test]
fn variants_come_in_menu_order() {
    assert_eq!(Menu::variants(), vec![Menu::Zig, Menu::Quit]);
    assert_eq!(
        OperatingSystem::variants(),
        vec![OperatingSystem::Linux, OperatingSystem::MacOS]
    );
    assert_eq!(
        Architecture::variants(),
        vec![Architecture::X86_64, Architecture::Aarch64]
    );
}

#[test]
fn complete_index_resolves_each_target_to_its_own_url() {
    let manifest = complete_index();
    assert_eq!(
        resolve(&manifest, InstallTarget::linux()),
        Ok(ArtifactDescriptor::new("https://example.org/builds/zig-linux-x86_64.tar.xz"))
    );
    assert_eq!(
        resolve(&manifest, InstallTarget::macos(Architecture::X86_64)),
        Ok(ArtifactDescriptor::new("https://example.org/builds/zig-macos-x86_64.tar.xz"))
    );
    assert_eq!(
        resolve(&manifest, InstallTarget::macos(Architecture::Aarch64)),
        Ok(ArtifactDescriptor::new("https://example.org/builds/zig-macos-aarch64.tar.xz"))
    );
}

#[test]
fn happy_path_resolves_the_linux_tarball() {
    let manifest = index_with(&[(
        "x86_64-linux",
        "https://example.org/builds/zig-linux-x86_64-0.1.0.tar.xz",
    )]);
    let descriptor = resolve(&manifest, InstallTarget::linux()).unwrap();
    assert_eq!(
        descriptor.tarball,
        "https://example.org/builds/zig-linux-x86_64-0.1.0.tar.xz"
    );
}

#[test]
fn missing_key_is_an_unsupported_target() {
    let manifest = index_with(&[("x86_64-macos", "https://example.org/zig-macos.tar.xz")]);
    assert_eq!(
        resolve(&manifest, InstallTarget::linux()),
        Err(Error::UnsupportedTarget("x86_64-linux".to_string()))
    );
}

#[test]
fn each_missing_key_is_reported_by_name() {
    let manifest = index_with(&[("x86_64-linux", "https://example.org/zig-linux.tar.xz")]);
    assert_eq!(
        resolve(&manifest, InstallTarget::macos(Architecture::X86_64)),
        Err(Error::UnsupportedTarget("x86_64-macos".to_string()))
    );
    assert_eq!(
        resolve(&manifest, InstallTarget::macos(Architecture::Aarch64)),
        Err(Error::UnsupportedTarget("aarch64-macos".to_string()))
    );
}

#[test]
fn empty_index_supports_no_target() {
    let manifest = ReleaseManifest::new();
    assert_eq!(
        resolve(&manifest, InstallTarget::linux()),
        Err(Error::UnsupportedTarget("x86_64-linux".to_string()))
    );
}

#[test]
fn other_channels_are_not_consulted() {
    let mut channel = ChannelEntry::new();
    channel.insert("x86_64-linux", ArtifactDescriptor::new("https://example.org/old.tar.xz"));
    let mut manifest = ReleaseManifest::new();
    manifest.insert("0.13.0", channel);
    assert_eq!(
        resolve(&manifest, InstallTarget::linux()),
        Err(Error::UnsupportedTarget("x86_64-linux".to_string()))
    );
}

#[test]
fn later_entry_replaces_an_earlier_one() {
    let mut channel = ChannelEntry::new();
    channel.insert("x86_64-linux", ArtifactDescriptor::new("https://example.org/first.tar.xz"));
    channel.insert("x86_64-linux", ArtifactDescriptor::new("https://example.org/second.tar.xz"));
    assert_eq!(
        channel.get("x86_64-linux"),
        Some(&ArtifactDescriptor::new("https://example.org/second.tar.xz"))
    );
    assert_eq!(channel.get("x86_64-macos"), None);
}

#[test]
fn channel_lookup_finds_what_was_inserted() {
    let manifest = complete_index();
    let channel = manifest.channel("master").unwrap();
    assert_eq!(
        channel.get("riscv64-linux"),
        Some(&ArtifactDescriptor::new("https://example.org/builds/zig-linux-riscv64.tar.xz"))
    );
    assert!(manifest.channel("stable").is_none());
}

#[test]
fn error_messages_carry_kind_and_detail() {
    assert_eq!(Error::Io("disk full".to_string()).message(), "IO error: disk full");
    assert_eq!(
        Error::HttpRequest("connection reset".to_string()).message(),
        "HTTP error: connection reset"
    );
    assert_eq!(
        Error::Decode("missing field".to_string()).message(),
        "Decode error: missing field"
    );
    assert_eq!(
        Error::UnsupportedTarget("x86_64-linux".to_string()).message(),
        "Unsupported target: x86_64-linux"
    );
    assert_eq!(Error::MissingContentLength.message(), "Missing content length!");
    assert_eq!(Error::UserCancelled.message(), "Cancelled");
}

#[test]
fn only_a_cancellation_exits_cleanly() {
    assert_eq!(Error::UserCancelled.exit_status(), 0);
    assert_eq!(Error::Io("x".to_string()).exit_status(), 1);
    assert_eq!(Error::HttpRequest("x".to_string()).exit_status(), 1);
    assert_eq!(Error::Decode("x".to_string()).exit_status(), 1);
    assert_eq!(Error::UnsupportedTarget("x".to_string()).exit_status(), 1);
    assert_eq!(Error::MissingContentLength.exit_status(), 1);
}

#[test]
fn duplicate_of_an_error_is_equal() {
    let error = Error::UnsupportedTarget("aarch64-macos".to_string());
    assert_eq!(error.duplicate(), error);
}

#[test]
fn failed_transfers_are_network_or_decode_errors() {
    assert_eq!(
        Error::from_transfer(false, "connection refused"),
        Error::HttpRequest("connection refused".to_string())
    );
    assert_eq!(
        Error::from_transfer(true, "missing field `master`"),
        Error::Decode("missing field `master`".to_string())
    );
}

#[test]
fn failed_file_operations_are_io_or_decode_errors() {
    assert_eq!(
        Error::from_file_system(false, "permission denied"),
        Error::Io("permission denied".to_string())
    );
    assert_eq!(
        Error::from_file_system(true, "premature eof"),
        Error::Decode("premature eof".to_string())
    );
}

#[test]
fn error_is_reachable_from_the_crate_root() {
    let error: zig_installer::Error = Error::UserCancelled;
    assert_eq!(error.exit_status(), 0);
}
