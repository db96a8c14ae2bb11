use cross_llvm::target::{
    container_tag, dockerfile_path, Architecture, BinaryFormat, Environment, Host,
    OperatingSystem, SupportedTriple, Triple, Vendor,
};

fn all_triples() -> Vec<SupportedTriple> {
    SupportedTriple::value_variants()
}

#[test]
fn resolve_is_total_and_deterministic() {
    for t in all_triples() {
        let a = t.resolve();
        let b = t.resolve();
        assert_eq!(a.architecture, b.architecture);
        assert_eq!(a.vendor, b.vendor);
        assert_eq!(a.operating_system, b.operating_system);
        assert_eq!(a.environment, b.environment);
        assert_eq!(a.binary_format, b.binary_format);
    }
}

#[test]
fn resolve_covers_seven_distinct_descriptors() {
    let triples = all_triples();
    assert_eq!(triples.len(), 7);
    let descriptors: Vec<Triple> = triples.iter().map(|t| t.resolve()).collect();
    for i in 0..descriptors.len() {
        for j in 0..descriptors.len() {
            if i != j {
                assert_ne!(descriptors[i], descriptors[j]);
            }
        }
    }
}

#[test]
fn resolve_field_values() {
    let d = Triple::from(SupportedTriple::Aarch64AppleDarwin);
    assert_eq!(d.architecture, Architecture::Aarch64);
    assert_eq!(d.vendor, Vendor::Apple);
    assert_eq!(d.operating_system, OperatingSystem::Darwin);
    assert_eq!(d.environment, Environment::Unknown);
    assert_eq!(d.binary_format, BinaryFormat::Macho);

    let d = Triple::from(SupportedTriple::Riscv64GcUnknownLinuxGnu);
    assert_eq!(d.architecture, Architecture::Riscv64Gc);
    assert_eq!(d.vendor, Vendor::Unknown);
    assert_eq!(d.operating_system, OperatingSystem::Linux);
    assert_eq!(d.environment, Environment::Gnu);
    assert_eq!(d.binary_format, BinaryFormat::Elf);
}

#[test]
fn identifiers_are_canonical() {
    let expected = vec![
        "aarch64-apple-darwin",
        "aarch64-unknown-linux-gnu",
        "aarch64-unknown-linux-musl",
        "riscv64gc-unknown-linux-gnu",
        "x86_64-apple-darwin",
        "x86_64-unknown-linux-gnu",
        "x86_64-unknown-linux-musl",
    ];
    let got: Vec<String> = all_triples().iter().map(|t| t.resolve().identifier()).collect();
    assert_eq!(got, expected);
}

#[test]
fn native_cross_reads_architecture_alone() {
    let host = Some(Architecture::X86_64);
    // Same architecture as the host: native, even though the environment
    // differs from a gnu host's. This is the documented, intentional rule.
    assert!(!Triple::from(SupportedTriple::X86_64UnknownLinuxMusl).is_cross(host));
    assert!(!Triple::from(SupportedTriple::X86_64AppleDarwin).is_cross(host));
    // Different architecture: cross.
    assert!(Triple::from(SupportedTriple::Aarch64UnknownLinuxGnu).is_cross(host));
    assert!(Triple::from(SupportedTriple::Riscv64GcUnknownLinuxGnu).is_cross(host));
    // A host architecture outside the supported set makes everything cross.
    assert!(Triple::from(SupportedTriple::X86_64UnknownLinuxGnu).is_cross(None));
}

#[test]
fn image_tag_is_exact() {
    let host = Some(Architecture::X86_64);
    assert_eq!(
        Triple::from(SupportedTriple::Aarch64UnknownLinuxGnu).default_container_tag(host),
        "ghcr.io/exein-io/cross-llvm/cross-aarch64-unknown-linux-gnu"
    );
    assert_eq!(
        Triple::from(SupportedTriple::X86_64UnknownLinuxMusl).default_container_tag(host),
        "ghcr.io/exein-io/cross-llvm/native-x86_64-unknown-linux-musl"
    );
    assert_eq!(
        container_tag("x86_64-unknown-linux-gnu", false),
        "ghcr.io/exein-io/cross-llvm/native-x86_64-unknown-linux-gnu"
    );
}

#[test]
fn dockerfile_path_is_exact() {
    assert_eq!(
        dockerfile_path("aarch64-unknown-linux-gnu", true),
        "containers/Dockerfile.cross-aarch64-unknown-linux-gnu"
    );
    assert_eq!(
        dockerfile_path("x86_64-unknown-linux-gnu", false),
        "containers/Dockerfile.native-x86_64-unknown-linux-gnu"
    );
}

#[test]
fn dockerfile_is_none_when_absent_from_disk() {
    // No containers/ directory exists here, so every platform lacks a build
    // definition: absence is reported as None, not as an error.
    for t in all_triples() {
        assert_eq!(t.resolve().dockerfile(Some(Architecture::X86_64)), None);
    }
}

#[test]
fn host_values_flow_into_platform_resolution() {
    let host = Host {
        architecture: Some(Architecture::X86_64),
        identifier: "x86_64-unknown-linux-gnu".to_string(),
    };
    let explicit = Some(SupportedTriple::Aarch64UnknownLinuxMusl);
    let none: Option<SupportedTriple> = None;
    assert_eq!(
        cross_llvm::target::platform_identifier(&explicit, &host),
        "aarch64-unknown-linux-musl"
    );
    assert!(cross_llvm::target::platform_cross(&explicit, &host));
    assert_eq!(
        cross_llvm::target::platform_identifier(&none, &host),
        "x86_64-unknown-linux-gnu"
    );
    // The host platform is never cross against itself.
    assert!(!cross_llvm::target::platform_cross(&none, &host));
}
