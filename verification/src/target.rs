//! Target platforms: the closed set of supported triples, their structured
//! descriptors, and the image tag / Dockerfile path derivations.

use vstd::prelude::*;
use vstd::string::StringExecFns;

verus! {

/// CPU architecture of a supported platform.
#[derive(Clone, Copy, Debug, PartialEq, Eq, Structural)]
pub enum Architecture {
    Aarch64,
    Riscv64Gc,
    X86_64,
}

/// Vendor component of a supported platform.
#[derive(Clone, Copy, Debug, PartialEq, Eq, Structural)]
pub enum Vendor {
    Apple,
    Unknown,
}

/// Operating system of a supported platform.
#[derive(Clone, Copy, Debug, PartialEq, Eq, Structural)]
pub enum OperatingSystem {
    Darwin,
    Linux,
}

/// Environment / ABI of a supported platform.
#[derive(Clone, Copy, Debug, PartialEq, Eq, Structural)]
pub enum Environment {
    Gnu,
    Musl,
    Unknown,
}

/// Binary format of a supported platform.
#[derive(Clone, Copy, Debug, PartialEq, Eq, Structural)]
pub enum BinaryFormat {
    Elf,
    Macho,
}

/// A structured platform descriptor: architecture, vendor, operating system,
/// environment/ABI and binary format.
#[derive(Clone, Copy, Debug, PartialEq, Eq, Structural)]
pub struct Triple {
    pub architecture: Architecture,
    pub vendor: Vendor,
    pub operating_system: OperatingSystem,
    pub environment: Environment,
    pub binary_format: BinaryFormat,
}

/// The closed set of platform identifiers this tool supports.
#[derive(Clone, Copy, Debug, PartialEq, Eq, Structural)]
pub enum SupportedTriple {
    Aarch64AppleDarwin,
    Aarch64UnknownLinuxGnu,
    Aarch64UnknownLinuxMusl,
    Riscv64GcUnknownLinuxGnu,
    X86_64AppleDarwin,
    X86_64UnknownLinuxGnu,
    X86_64UnknownLinuxMusl,
}

impl Architecture {
    /// The architecture's token in a platform identifier.
    pub open spec fn spec_name(self) -> Seq<char> {
        match self {
            Architecture::Aarch64 => "aarch64"@,
            Architecture::Riscv64Gc => "riscv64gc"@,
            Architecture::X86_64 => "x86_64"@,
        }
    }

    pub fn name(&self) -> (r: &'static str)
        ensures
            r@ == self.spec_name(),
    {
        match self {
            Architecture::Aarch64 => "aarch64",
            Architecture::Riscv64Gc => "riscv64gc",
            Architecture::X86_64 => "x86_64",
        }
    }
}

impl Vendor {
    /// The vendor's token in a platform identifier.
    pub open spec fn spec_name(self) -> Seq<char> {
        match self {
            Vendor::Apple => "apple"@,
            Vendor::Unknown => "unknown"@,
        }
    }

    pub fn name(&self) -> (r: &'static str)
        ensures
            r@ == self.spec_name(),
    {
        match self {
            Vendor::Apple => "apple",
            Vendor::Unknown => "unknown",
        }
    }
}

impl OperatingSystem {
    /// The operating system's token in a platform identifier.
    pub open spec fn spec_name(self) -> Seq<char> {
        match self {
            OperatingSystem::Darwin => "darwin"@,
            OperatingSystem::Linux => "linux"@,
        }
    }

    pub fn name(&self) -> (r: &'static str)
        ensures
            r@ == self.spec_name(),
    {
        match self {
            OperatingSystem::Darwin => "darwin",
            OperatingSystem::Linux => "linux",
        }
    }
}

impl Environment {
    /// The environment's token in a platform identifier.
    pub open spec fn spec_name(self) -> Seq<char> {
        match self {
            Environment::Gnu => "gnu"@,
            Environment::Musl => "musl"@,
            Environment::Unknown => "unknown"@,
        }
    }

    pub fn name(&self) -> (r: &'static str)
        ensures
            r@ == self.spec_name(),
    {
        match self {
            Environment::Gnu => "gnu",
            Environment::Musl => "musl",
            Environment::Unknown => "unknown",
        }
    }
}

impl SupportedTriple {
    /// The descriptor each supported identifier resolves to: a total,
    /// deterministic mapping over the closed set.
    pub open spec fn spec_resolve(self) -> Triple {
        match self {
            SupportedTriple::Aarch64AppleDarwin => Triple {
                architecture: Architecture::Aarch64,
                vendor: Vendor::Apple,
                operating_system: OperatingSystem::Darwin,
                environment: Environment::Unknown,
                binary_format: BinaryFormat::Macho,
            },
            SupportedTriple::Aarch64UnknownLinuxGnu => Triple {
                architecture: Architecture::Aarch64,
                vendor: Vendor::Unknown,
                operating_system: OperatingSystem::Linux,
                environment: Environment::Gnu,
                binary_format: BinaryFormat::Elf,
            },
            SupportedTriple::Aarch64UnknownLinuxMusl => Triple {
                architecture: Architecture::Aarch64,
                vendor: Vendor::Unknown,
                operating_system: OperatingSystem::Linux,
                environment: Environment::Musl,
                binary_format: BinaryFormat::Elf,
            },
            SupportedTriple::Riscv64GcUnknownLinuxGnu => Triple {
                architecture: Architecture::Riscv64Gc,
                vendor: Vendor::Unknown,
                operating_system: OperatingSystem::Linux,
                environment: Environment::Gnu,
                binary_format: BinaryFormat::Elf,
            },
            SupportedTriple::X86_64AppleDarwin => Triple {
                architecture: Architecture::X86_64,
                vendor: Vendor::Apple,
                operating_system: OperatingSystem::Darwin,
                environment: Environment::Unknown,
                binary_format: BinaryFormat::Macho,
            },
            SupportedTriple::X86_64UnknownLinuxGnu => Triple {
                architecture: Architecture::X86_64,
                vendor: Vendor::Unknown,
                operating_system: OperatingSystem::Linux,
                environment: Environment::Gnu,
                binary_format: BinaryFormat::Elf,
            },
            SupportedTriple::X86_64UnknownLinuxMusl => Triple {
                architecture: Architecture::X86_64,
                vendor: Vendor::Unknown,
                operating_system: OperatingSystem::Linux,
                environment: Environment::Musl,
                binary_format: BinaryFormat::Elf,
            },
        }
    }

    /// Resolve the identifier to its platform descriptor.
    pub fn resolve(&self) -> (r: Triple)
        ensures
            r == self.spec_resolve(),
    {
        Triple::from(*self)
    }

    /// Every supported identifier, in canonical order.
    pub fn value_variants() -> (r: Vec<SupportedTriple>)
        ensures
            r@ =~~= seq![
                SupportedTriple::Aarch64AppleDarwin,
                SupportedTriple::Aarch64UnknownLinuxGnu,
                SupportedTriple::Aarch64UnknownLinuxMusl,
                SupportedTriple::Riscv64GcUnknownLinuxGnu,
                SupportedTriple::X86_64AppleDarwin,
                SupportedTriple::X86_64UnknownLinuxGnu,
                SupportedTriple::X86_64UnknownLinuxMusl,
            ],
    {
        let mut r: Vec<SupportedTriple> = Vec::new();
        r.push(SupportedTriple::Aarch64AppleDarwin);
        r.push(SupportedTriple::Aarch64UnknownLinuxGnu);
        r.push(SupportedTriple::Aarch64UnknownLinuxMusl);
        r.push(SupportedTriple::Riscv64GcUnknownLinuxGnu);
        r.push(SupportedTriple::X86_64AppleDarwin);
        r.push(SupportedTriple::X86_64UnknownLinuxGnu);
        r.push(SupportedTriple::X86_64UnknownLinuxMusl);
        r
    }
}

impl From<SupportedTriple> for Triple {
    fn from(value: SupportedTriple) -> (r: Triple) {
        match value {
            SupportedTriple::Aarch64AppleDarwin => Triple {
                architecture: Architecture::Aarch64,
                vendor: Vendor::Apple,
                operating_system: OperatingSystem::Darwin,
                environment: Environment::Unknown,
                binary_format: BinaryFormat::Macho,
            },
            SupportedTriple::Aarch64UnknownLinuxGnu => Triple {
                architecture: Architecture::Aarch64,
                vendor: Vendor::Unknown,
                operating_system: OperatingSystem::Linux,
                environment: Environment::Gnu,
                binary_format: BinaryFormat::Elf,
            },
            SupportedTriple::Aarch64UnknownLinuxMusl => Triple {
                architecture: Architecture::Aarch64,
                vendor: Vendor::Unknown,
                operating_system: OperatingSystem::Linux,
                environment: Environment::Musl,
                binary_format: BinaryFormat::Elf,
            },
            SupportedTriple::Riscv64GcUnknownLinuxGnu => Triple {
                architecture: Architecture::Riscv64Gc,
                vendor: Vendor::Unknown,
                operating_system: OperatingSystem::Linux,
                environment: Environment::Gnu,
                binary_format: BinaryFormat::Elf,
            },
            SupportedTriple::X86_64AppleDarwin => Triple {
                architecture: Architecture::X86_64,
                vendor: Vendor::Apple,
                operating_system: OperatingSystem::Darwin,
                environment: Environment::Unknown,
                binary_format: BinaryFormat::Macho,
            },
            SupportedTriple::X86_64UnknownLinuxGnu => Triple {
                architecture: Architecture::X86_64,
                vendor: Vendor::Unknown,
                operating_system: OperatingSystem::Linux,
                environment: Environment::Gnu,
                binary_format: BinaryFormat::Elf,
            },
            SupportedTriple::X86_64UnknownLinuxMusl => Triple {
                architecture: Architecture::X86_64,
                vendor: Vendor::Unknown,
                operating_system: OperatingSystem::Linux,
                environment: Environment::Musl,
                binary_format: BinaryFormat::Elf,
            },
        }
    }
}

impl vstd::std_specs::convert::FromSpecImpl<SupportedTriple> for Triple {
    open spec fn obeys_from_spec() -> bool {
        true
    }

    open spec fn from_spec(value: SupportedTriple) -> Triple {
        value.spec_resolve()
    }
}

/// The `{native|cross}` prefix that marks whether a platform matches the
/// host architecture.
pub open spec fn spec_prefix_name(cross: bool) -> Seq<char> {
    if cross {
        "cross"@
    } else {
        "native"@
    }
}

/// The container image tag derived from a platform identifier and its
/// native/cross classification.
pub open spec fn spec_container_tag(identifier: Seq<char>, cross: bool) -> Seq<char> {
    "ghcr.io/exein-io/cross-llvm/"@ + spec_prefix_name(cross) + "-"@ + identifier
}

/// The Dockerfile path derived from a platform identifier and its
/// native/cross classification.
pub open spec fn spec_dockerfile_path(identifier: Seq<char>, cross: bool) -> Seq<char> {
    "containers/Dockerfile."@ + spec_prefix_name(cross) + "-"@ + identifier
}

fn prefix_name(cross: bool) -> (r: &'static str)
    ensures
        r@ == spec_prefix_name(cross),
{
    if cross {
        "cross"
    } else {
        "native"
    }
}

/// Derive the container image tag for a platform identifier.
pub fn container_tag(identifier: &str, cross: bool) -> (r: String)
    ensures
        r@ == spec_container_tag(identifier@, cross),
{
    let mut r = "ghcr.io/exein-io/cross-llvm/".to_owned();
    r.append(prefix_name(cross));
    r.append("-");
    r.append(identifier);
    assert(r@ =~~= spec_container_tag(identifier@, cross));
    r
}

/// Derive the Dockerfile path for a platform identifier.
pub fn dockerfile_path(identifier: &str, cross: bool) -> (r: String)
    ensures
        r@ == spec_dockerfile_path(identifier@, cross),
{
    let mut r = "containers/Dockerfile.".to_owned();
    r.append(prefix_name(cross));
    r.append("-");
    r.append(identifier);
    assert(r@ =~~= spec_dockerfile_path(identifier@, cross));
    r
}

impl Triple {
    /// The canonical identifier of this descriptor:
    /// `{architecture}-{vendor}-{operating_system}`, followed by
    /// `-{environment}` unless the environment is unknown.
    pub open spec fn spec_identifier(self) -> Seq<char> {
        self.architecture.spec_name() + "-"@ + self.vendor.spec_name() + "-"@
            + self.operating_system.spec_name() + if self.environment is Unknown {
            Seq::<char>::empty()
        } else {
            "-"@ + self.environment.spec_name()
        }
    }

    pub fn identifier(&self) -> (r: String)
        ensures
            r@ == self.spec_identifier(),
    {
        let mut r = self.architecture.name().to_owned();
        r.append("-");
        r.append(self.vendor.name());
        r.append("-");
        r.append(self.operating_system.name());
        if !(self.environment == Environment::Unknown) {
            r.append("-");
            r.append(self.environment.name());
        }
        assert(r@ =~~= self.spec_identifier());
        r
    }

    /// A platform is cross exactly when its architecture differs from the
    /// host's; vendor, operating system and environment play no part. A host
    /// architecture outside the supported set differs from every supported
    /// architecture.
    pub open spec fn spec_is_cross(self, host: Option<Architecture>) -> bool {
        match host {
            Some(h) => self.architecture != h,
            None => true,
        }
    }

    pub fn is_cross(&self, host: Option<Architecture>) -> (r: bool)
        ensures
            r == self.spec_is_cross(host),
    {
        match host {
            Some(h) => !(self.architecture == h),
            None => true,
        }
    }

    /// The container image tag this platform builds or runs by default.
    pub fn default_container_tag(&self, host: Option<Architecture>) -> (r: String)
        ensures
            r@ == spec_container_tag(self.spec_identifier(), self.spec_is_cross(host)),
    {
        let id = self.identifier();
        container_tag(id.as_str(), self.is_cross(host))
    }

    /// The Dockerfile this platform builds from, or `None` when no such file
    /// exists on disk: absence means the platform has no build definition,
    /// not an error.
    pub fn dockerfile(&self, host: Option<Architecture>) -> (r: Option<String>)
        ensures
            r matches Some(p) ==> p@ == spec_dockerfile_path(
                self.spec_identifier(),
                self.spec_is_cross(host),
            ),
    {
        let id = self.identifier();
        let path = dockerfile_path(id.as_str(), self.is_cross(host));
        if path_exists(path.as_str()) {
            Some(path)
        } else {
            None
        }
    }
}

/// What resolution needs to know of the machine the tool runs on: its
/// architecture, mapped onto the supported set (`None` when it is none of
/// them), and its canonical identifier string.
pub struct Host {
    pub architecture: Option<Architecture>,
    pub identifier: String,
}

/// Relies on `std::path::Path::exists`: true when the path points at an
/// existing entity on disk, false otherwise or when the metadata cannot be
/// read. The answer depends on the state of the filesystem, so nothing is
/// promised of it.
#[verifier::external_body]
pub(crate) fn path_exists(path: &str) -> bool {
    std::path::Path::new(path).exists()
}

/// Relies on `target_lexicon::HOST.architecture`, the architecture this
/// program was compiled for. The value depends on the machine, so nothing is
/// promised of it.
#[verifier::external_body]
fn host_architecture() -> Option<Architecture> {
    match target_lexicon::HOST.architecture {
        target_lexicon::Architecture::Aarch64(target_lexicon::Aarch64Architecture::Aarch64) => Some(
            Architecture::Aarch64,
        ),
        target_lexicon::Architecture::Riscv64(target_lexicon::Riscv64Architecture::Riscv64gc) => Some(
            Architecture::Riscv64Gc,
        ),
        target_lexicon::Architecture::X86_64 => Some(Architecture::X86_64),
        _ => None,
    }
}

/// Relies on `target_lexicon::HOST`'s `Display`, the canonical identifier of
/// the triple this program was compiled for. The value depends on the
/// machine, so nothing is promised of it.
#[verifier::external_body]
fn host_identifier() -> String {
    target_lexicon::HOST.to_string()
}

/// Probe the machine the tool runs on. The result depends on the machine, so
/// nothing is promised of it; every function that decides on it takes it as
/// an argument and is verified for all its values.
pub(crate) fn detect_host() -> Host {
    Host { architecture: host_architecture(), identifier: host_identifier() }
}

/// The identifier of the platform an invocation targets: the requested
/// triple's, or the host's when none was requested.
pub open spec fn spec_platform_identifier(
    target: Option<SupportedTriple>,
    host: Host,
) -> Seq<char> {
    match target {
        Some(t) => t.spec_resolve().spec_identifier(),
        None => host.identifier@,
    }
}

pub fn platform_identifier(target: &Option<SupportedTriple>, host: &Host) -> (r: String)
    ensures
        r@ == spec_platform_identifier(*target, *host),
{
    match target {
        Some(t) => t.resolve().identifier(),
        None => host.identifier.clone(),
    }
}

/// The native/cross classification of the platform an invocation targets:
/// the requested triple's against the host architecture, and native when no
/// triple was requested, since the host trivially matches itself.
pub open spec fn spec_platform_cross(target: Option<SupportedTriple>, host: Host) -> bool {
    match target {
        Some(t) => t.spec_resolve().spec_is_cross(host.architecture),
        None => false,
    }
}

pub fn platform_cross(target: &Option<SupportedTriple>, host: &Host) -> (r: bool)
    ensures
        r == spec_platform_cross(*target, *host),
{
    match target {
        Some(t) => t.resolve().is_cross(host.architecture),
        None => false,
    }
}

/// Identifiers are resolved injectively: distinct supported identifiers
/// resolve to descriptors that differ in at least one field.
pub proof fn lemma_resolve_injective(a: SupportedTriple, b: SupportedTriple)
    requires
        a != b,
    ensures
        a.spec_resolve() != b.spec_resolve(),
{
}

/// The native/cross classification reads nothing but the architecture:
/// descriptors with equal architectures classify alike against every host,
/// whatever their vendor, operating system, environment or binary format.
pub proof fn lemma_is_cross_reads_architecture_alone(
    a: Triple,
    b: Triple,
    host: Option<Architecture>,
)
    requires
        a.architecture == b.architecture,
    ensures
        a.spec_is_cross(host) == b.spec_is_cross(host),
{
}

} // verus!
