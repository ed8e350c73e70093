//! Build descriptions: the architectures the system is built for and the
//! target triples that name them.

use vstd::prelude::*;
use vstd::string::StringExecFns;

use crate::text::{starts_with, str_starts_with};

verus! {

/// What the build needs to know of an architecture.
#[derive(Debug, Clone)]
pub struct ArchSpec {
    pub arch: &'static str,
    /// CPU name, such as `generic-rv64`.
    pub cpu: &'static str,
    pub pointer_width: &'static str,
    /// Maximum atomic width in bits.
    pub max_atomic_width: u32,
    /// Target endianness.
    pub endian: &'static str,
}

/// The code generator's settings for a target.
#[derive(Debug, Clone)]
pub struct LLVMConfig {
    pub llvm_target: String,
    pub features: String,
    /// ABI or calling convention, such as `lp64` or `ilp32`.
    pub abi: String,
    /// LLVM data layout string.
    pub data_layout: String,
}

/// A target in the standard triple format: `{arch}-{vendor}-{os}[-{abi}]`.
#[derive(Debug, Clone)]
pub struct TargetConfig {
    pub arch: String,
    pub vendor: String,
    pub os: String,
    /// ABI, such as `musl` or `gnu`; empty for none.
    pub abi: String,
}

/// The base architecture of an architecture name: `riscv64` or `riscv32`
/// for a name that begins with one of them, else the name itself.
pub open spec fn base_arch(arch: Seq<char>) -> Seq<char> {
    if starts_with(arch, "riscv64"@) {
        "riscv64"@
    } else if starts_with(arch, "riscv32"@) {
        "riscv32"@
    } else {
        arch
    }
}

/// Whether an architecture is one the system is built for.
pub open spec fn supported_arch(arch: Seq<char>) -> bool {
    starts_with(arch, "riscv64"@) || starts_with(arch, "riscv32"@)
}

/// Strips the extension letters from an architecture name.
pub fn extract_base_arch(arch: &str) -> (base: &str)
    ensures
        base@ == base_arch(arch@),
{
    if str_starts_with(arch, "riscv64") {
        "riscv64"
    } else if str_starts_with(arch, "riscv32") {
        "riscv32"
    } else {
        arch
    }
}

/// Whether `arch` names an architecture the system is built for.
pub fn is_supported_arch(arch: &str) -> (supported: bool)
    ensures
        supported == supported_arch(arch@),
{
    str_starts_with(arch, "riscv64") || str_starts_with(arch, "riscv32")
}

/// The description of a supported architecture.
pub fn get_arch_spec(arch: &str) -> (spec: ArchSpec)
    requires
        supported_arch(arch@),
    ensures
        spec.arch@ == base_arch(arch@),
        spec.endian@ == "little"@,
        starts_with(arch@, "riscv64"@) ==> spec.cpu@ == "generic-rv64"@ && spec.pointer_width@
            == "64"@ && spec.max_atomic_width == 64,
        !starts_with(arch@, "riscv64"@) ==> spec.cpu@ == "generic-rv32"@ && spec.pointer_width@
            == "32"@ && spec.max_atomic_width == 32,
{
    let base = extract_base_arch(arch);
    if str_starts_with(base, "riscv64") {
        proof {
            lemma_bases_differ();
        }
        ArchSpec {
            arch: "riscv64",
            cpu: "generic-rv64",
            pointer_width: "64",
            max_atomic_width: 64,
            endian: "little",
        }
    } else {
        proof {
            lemma_bases_differ();
        }
        ArchSpec {
            arch: "riscv32",
            cpu: "generic-rv32",
            pointer_width: "32",
            max_atomic_width: 32,
            endian: "little",
        }
    }
}

/// The two base architectures are their own prefixes, and neither is a
/// prefix of the other.
pub proof fn lemma_bases_differ()
    ensures
        starts_with("riscv64"@, "riscv64"@),
        starts_with("riscv32"@, "riscv32"@),
        !starts_with("riscv32"@, "riscv64"@),
        !starts_with("riscv64"@, "riscv32"@),
{
    reveal_strlit("riscv64");
    reveal_strlit("riscv32");
    assert("riscv64"@.subrange(0, 7) =~= "riscv64"@);
    assert("riscv32"@.subrange(0, 7) =~= "riscv32"@);
    assert("riscv64"@[5] == '6');
    assert("riscv32"@[5] == '3');
    assert("riscv32"@.subrange(0, 7)[5] == '3');
    assert("riscv64"@.subrange(0, 7)[5] == '6');
}

impl TargetConfig {
    /// A target from its parts, in triple order: arch, vendor, os, abi.
    pub fn new(arch: String, vendor: String, os: String, abi: String) -> (target: Self)
        ensures
            target.arch == arch,
            target.vendor == vendor,
            target.os == os,
            target.abi == abi,
    {
        TargetConfig { arch, vendor, os, abi }
    }

    /// The triple as text.
    pub open spec fn triple(&self) -> Seq<char> {
        let stem = self.arch@ + "-"@ + self.vendor@ + "-"@ + self.os@;
        if self.abi@.len() == 0 {
            stem
        } else {
            stem + "-"@ + self.abi@
        }
    }

    /// The triple: `{arch}-{vendor}-{os}`, followed by `-{abi}` unless the
    /// ABI is empty.
    pub fn target_triple(&self) -> (triple: String)
        ensures
            triple@ == self.triple(),
    {
        let mut triple = self.arch.clone();
        triple.append("-");
        triple.append(self.vendor.as_str());
        triple.append("-");
        triple.append(self.os.as_str());
        if !self.abi.as_str().is_empty() {
            triple.append("-");
            triple.append(self.abi.as_str());
        }
        triple
    }
}

} // verus!
