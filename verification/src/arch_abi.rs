//! The CPU architectures and ABIs that a manifest file name may be
//! decorated with.

use vstd::prelude::*;
use vstd::string::*;

verus! {

/// A CPU architecture and ABI, as named in the file names of active
/// runtime manifests.
#[derive(Debug, Clone, Copy, PartialEq, Eq, Structural)]
#[allow(non_camel_case_types)]
pub enum RuntimeArchAbi {
    /// 64-bit x86 instructions, using an ILP32 model (32-bit pointers)
    Arch_x32,
    /// 64-bit x86
    Arch_x86_64,
    /// 32-bit x86
    Arch_i686,
    /// 64-bit ARM architecture, little endian
    Arch_aarch64,
    /// 32-bit ARMv7-A architecture, little endian, with hardware floating point and VFP PCS ABI
    Arch_armv7a_vfp,
    /// 32-bit ARMv5TE architecture or compatible, little endian
    Arch_armv5te,
    /// 64-bit MIPS architecture, little endian
    Arch_mips64,
    /// 32-bit MIPS architecture, little endian
    Arch_mips,
    /// 64-bit PowerPC architecture, big endian
    Arch_ppc64,
    /// 64-bit POWER8/POWER9 architecture, little endian (OpenPOWER ELF ABI v2)
    Arch_ppc64el,
    /// 64-bit S390/z-Series architecture, big endian
    Arch_s390x,
    /// 32-bit HP PA-RISC architecture, big endian
    Arch_hppa,
    /// 64-bit Alpha architecture
    Arch_alpha,
    /// 64-bit IA-64 architecture
    Arch_ia64,
    /// 32-bit Motorola 68000-based architecture, big endian
    Arch_m68k,
    /// 64-bit RISC-V architecture, little endian
    Arch_riscv64,
    /// 64-bit SPARC architecture
    Arch_sparc64,
    /// 64-bit LoongArch architecture, little endian (LP64D ABI)
    Arch_loongarch64,
}

/// What the build targets, as far as the architecture tag depends on
/// it.
#[derive(Debug, Clone, PartialEq, Eq)]
pub struct TargetInfo {
    /// The target architecture, such as `x86_64` or `arm`.
    pub arch: String,
    /// The width of a pointer, in bits.
    pub pointer_width: u32,
    /// The target ABI, such as `eabihf`; empty where the target names
    /// none.
    pub abi: String,
    /// Whether the target is big endian.
    pub big_endian: bool,
}

/// The tag of the target with the given properties, if it has one.
pub open spec fn arch_of_target(
    arch: Seq<char>,
    pointer_width: u32,
    abi: Seq<char>,
    big_endian: bool,
) -> Option<RuntimeArchAbi> {
    if arch == "x86_64"@ && pointer_width == 32 {
        Some(RuntimeArchAbi::Arch_x32)
    } else if arch == "x86_64"@ {
        Some(RuntimeArchAbi::Arch_x86_64)
    } else if arch == "x86"@ {
        Some(RuntimeArchAbi::Arch_i686)
    } else if arch == "aarch64"@ {
        Some(RuntimeArchAbi::Arch_aarch64)
    } else if arch == "arm"@ && abi == "eabihf"@ {
        Some(RuntimeArchAbi::Arch_armv7a_vfp)
    } else if arch == "arm"@ && abi == "eabi"@ {
        Some(RuntimeArchAbi::Arch_armv5te)
    } else if arch == "mips64"@ {
        Some(RuntimeArchAbi::Arch_mips64)
    } else if arch == "mips"@ {
        Some(RuntimeArchAbi::Arch_mips)
    } else if arch == "powerpc64"@ && big_endian {
        Some(RuntimeArchAbi::Arch_ppc64)
    } else if arch == "powerpc64"@ {
        Some(RuntimeArchAbi::Arch_ppc64el)
    } else if arch == "s390x"@ {
        Some(RuntimeArchAbi::Arch_s390x)
    } else if arch == "m68k"@ {
        Some(RuntimeArchAbi::Arch_m68k)
    } else if arch == "riscv64"@ {
        Some(RuntimeArchAbi::Arch_riscv64)
    } else if arch == "sparc64"@ {
        Some(RuntimeArchAbi::Arch_sparc64)
    } else if arch == "loongarch64"@ {
        Some(RuntimeArchAbi::Arch_loongarch64)
    } else {
        None
    }
}

/// Are the two texts equal?
fn same_text(a: &str, b: &str) -> (same: bool)
    ensures
        same == (a@ == b@),
{
    String::from_str(a) == String::from_str(b)
}

impl RuntimeArchAbi {
    /// The name of this architecture.
    pub open spec fn name(self) -> Seq<char> {
        match self {
            RuntimeArchAbi::Arch_x32 => "x32"@,
            RuntimeArchAbi::Arch_x86_64 => "x86_64"@,
            RuntimeArchAbi::Arch_i686 => "i686"@,
            RuntimeArchAbi::Arch_aarch64 => "aarch64"@,
            RuntimeArchAbi::Arch_armv7a_vfp => "armv7a-vfp"@,
            RuntimeArchAbi::Arch_armv5te => "armv5te"@,
            RuntimeArchAbi::Arch_mips64 => "mips64"@,
            RuntimeArchAbi::Arch_mips => "mips"@,
            RuntimeArchAbi::Arch_ppc64 => "ppc64"@,
            RuntimeArchAbi::Arch_ppc64el => "ppc64el"@,
            RuntimeArchAbi::Arch_s390x => "s390x"@,
            RuntimeArchAbi::Arch_hppa => "hppa"@,
            RuntimeArchAbi::Arch_alpha => "alpha"@,
            RuntimeArchAbi::Arch_ia64 => "ia64"@,
            RuntimeArchAbi::Arch_m68k => "m68k"@,
            RuntimeArchAbi::Arch_riscv64 => "riscv64"@,
            RuntimeArchAbi::Arch_sparc64 => "sparc64"@,
            RuntimeArchAbi::Arch_loongarch64 => "loongarch64"@,
        }
    }

    /// The file name suffix of this architecture.
    pub open spec fn suffix(self) -> Seq<char> {
        match self {
            RuntimeArchAbi::Arch_x32 => ".x32.json"@,
            RuntimeArchAbi::Arch_x86_64 => ".x86_64.json"@,
            RuntimeArchAbi::Arch_i686 => ".i686.json"@,
            RuntimeArchAbi::Arch_aarch64 => ".aarch64.json"@,
            RuntimeArchAbi::Arch_armv7a_vfp => ".armv7a-vfp.json"@,
            RuntimeArchAbi::Arch_armv5te => ".armv5te.json"@,
            RuntimeArchAbi::Arch_mips64 => ".mips64.json"@,
            RuntimeArchAbi::Arch_mips => ".mips.json"@,
            RuntimeArchAbi::Arch_ppc64 => ".ppc64.json"@,
            RuntimeArchAbi::Arch_ppc64el => ".ppc64el.json"@,
            RuntimeArchAbi::Arch_s390x => ".s390x.json"@,
            RuntimeArchAbi::Arch_hppa => ".hppa.json"@,
            RuntimeArchAbi::Arch_alpha => ".alpha.json"@,
            RuntimeArchAbi::Arch_ia64 => ".ia64.json"@,
            RuntimeArchAbi::Arch_m68k => ".m68k.json"@,
            RuntimeArchAbi::Arch_riscv64 => ".riscv64.json"@,
            RuntimeArchAbi::Arch_sparc64 => ".sparc64.json"@,
            RuntimeArchAbi::Arch_loongarch64 => ".loongarch64.json"@,
        }
    }

    /// The name of this architecture.
    pub fn to_string(&self) -> (text: String)
        ensures
            text@ == self.name(),
    {
        let name = match self {
            RuntimeArchAbi::Arch_x32 => "x32",
            RuntimeArchAbi::Arch_x86_64 => "x86_64",
            RuntimeArchAbi::Arch_i686 => "i686",
            RuntimeArchAbi::Arch_aarch64 => "aarch64",
            RuntimeArchAbi::Arch_armv7a_vfp => "armv7a-vfp",
            RuntimeArchAbi::Arch_armv5te => "armv5te",
            RuntimeArchAbi::Arch_mips64 => "mips64",
            RuntimeArchAbi::Arch_mips => "mips",
            RuntimeArchAbi::Arch_ppc64 => "ppc64",
            RuntimeArchAbi::Arch_ppc64el => "ppc64el",
            RuntimeArchAbi::Arch_s390x => "s390x",
            RuntimeArchAbi::Arch_hppa => "hppa",
            RuntimeArchAbi::Arch_alpha => "alpha",
            RuntimeArchAbi::Arch_ia64 => "ia64",
            RuntimeArchAbi::Arch_m68k => "m68k",
            RuntimeArchAbi::Arch_riscv64 => "riscv64",
            RuntimeArchAbi::Arch_sparc64 => "sparc64",
            RuntimeArchAbi::Arch_loongarch64 => "loongarch64",
        };
        String::from_str(name)
    }

    /// The suffix of the file name of an active runtime manifest for
    /// this architecture.
    pub fn filename_suffix(self) -> (suffix: &'static str)
        ensures
            suffix@ == self.suffix(),
    {
        match self {
            RuntimeArchAbi::Arch_x32 => ".x32.json",
            RuntimeArchAbi::Arch_x86_64 => ".x86_64.json",
            RuntimeArchAbi::Arch_i686 => ".i686.json",
            RuntimeArchAbi::Arch_aarch64 => ".aarch64.json",
            RuntimeArchAbi::Arch_armv7a_vfp => ".armv7a-vfp.json",
            RuntimeArchAbi::Arch_armv5te => ".armv5te.json",
            RuntimeArchAbi::Arch_mips64 => ".mips64.json",
            RuntimeArchAbi::Arch_mips => ".mips.json",
            RuntimeArchAbi::Arch_ppc64 => ".ppc64.json",
            RuntimeArchAbi::Arch_ppc64el => ".ppc64el.json",
            RuntimeArchAbi::Arch_s390x => ".s390x.json",
            RuntimeArchAbi::Arch_hppa => ".hppa.json",
            RuntimeArchAbi::Arch_alpha => ".alpha.json",
            RuntimeArchAbi::Arch_ia64 => ".ia64.json",
            RuntimeArchAbi::Arch_m68k => ".m68k.json",
            RuntimeArchAbi::Arch_riscv64 => ".riscv64.json",
            RuntimeArchAbi::Arch_sparc64 => ".sparc64.json",
            RuntimeArchAbi::Arch_loongarch64 => ".loongarch64.json",
        }
    }

    /// The tag of the architecture that was built for, if it has one.
    pub fn get_current_arch(target: &TargetInfo) -> (current: Option<RuntimeArchAbi>)
        ensures
            current == arch_of_target(
                target.arch@,
                target.pointer_width,
                target.abi@,
                target.big_endian,
            ),
    {
        let arch = target.arch.as_str();
        let abi = target.abi.as_str();
        if same_text(arch, "x86_64") && target.pointer_width == 32 {
            Some(RuntimeArchAbi::Arch_x32)
        } else if same_text(arch, "x86_64") {
            Some(RuntimeArchAbi::Arch_x86_64)
        } else if same_text(arch, "x86") {
            Some(RuntimeArchAbi::Arch_i686)
        } else if same_text(arch, "aarch64") {
            Some(RuntimeArchAbi::Arch_aarch64)
        } else if same_text(arch, "arm") && same_text(abi, "eabihf") {
            Some(RuntimeArchAbi::Arch_armv7a_vfp)
        } else if same_text(arch, "arm") && same_text(abi, "eabi") {
            Some(RuntimeArchAbi::Arch_armv5te)
        } else if same_text(arch, "mips64") {
            Some(RuntimeArchAbi::Arch_mips64)
        } else if same_text(arch, "mips") {
            Some(RuntimeArchAbi::Arch_mips)
        } else if same_text(arch, "powerpc64") && target.big_endian {
            Some(RuntimeArchAbi::Arch_ppc64)
        } else if same_text(arch, "powerpc64") {
            Some(RuntimeArchAbi::Arch_ppc64el)
        } else if same_text(arch, "s390x") {
            Some(RuntimeArchAbi::Arch_s390x)
        } else if same_text(arch, "m68k") {
            Some(RuntimeArchAbi::Arch_m68k)
        } else if same_text(arch, "riscv64") {
            Some(RuntimeArchAbi::Arch_riscv64)
        } else if same_text(arch, "sparc64") {
            Some(RuntimeArchAbi::Arch_sparc64)
        } else if same_text(arch, "loongarch64") {
            Some(RuntimeArchAbi::Arch_loongarch64)
        } else {
            None
        }
    }

    /// Every architecture, each once.
    pub fn all() -> (all: Vec<RuntimeArchAbi>)
        ensures
            all@.len() == 18,
            forall|arch: RuntimeArchAbi| all@.contains(arch),
            all@.no_duplicates(),
    {
        let mut all: Vec<RuntimeArchAbi> = Vec::new();
        all.push(RuntimeArchAbi::Arch_x32);
        all.push(RuntimeArchAbi::Arch_x86_64);
        all.push(RuntimeArchAbi::Arch_i686);
        all.push(RuntimeArchAbi::Arch_aarch64);
        all.push(RuntimeArchAbi::Arch_armv7a_vfp);
        all.push(RuntimeArchAbi::Arch_armv5te);
        all.push(RuntimeArchAbi::Arch_mips64);
        all.push(RuntimeArchAbi::Arch_mips);
        all.push(RuntimeArchAbi::Arch_ppc64);
        all.push(RuntimeArchAbi::Arch_ppc64el);
        all.push(RuntimeArchAbi::Arch_s390x);
        all.push(RuntimeArchAbi::Arch_hppa);
        all.push(RuntimeArchAbi::Arch_alpha);
        all.push(RuntimeArchAbi::Arch_ia64);
        all.push(RuntimeArchAbi::Arch_m68k);
        all.push(RuntimeArchAbi::Arch_riscv64);
        all.push(RuntimeArchAbi::Arch_sparc64);
        all.push(RuntimeArchAbi::Arch_loongarch64);
        assert forall|arch: RuntimeArchAbi| all@.contains(arch) by {
            assert(all@[0] == RuntimeArchAbi::Arch_x32);
            assert(all@[1] == RuntimeArchAbi::Arch_x86_64);
            assert(all@[2] == RuntimeArchAbi::Arch_i686);
            assert(all@[3] == RuntimeArchAbi::Arch_aarch64);
            assert(all@[4] == RuntimeArchAbi::Arch_armv7a_vfp);
            assert(all@[5] == RuntimeArchAbi::Arch_armv5te);
            assert(all@[6] == RuntimeArchAbi::Arch_mips64);
            assert(all@[7] == RuntimeArchAbi::Arch_mips);
            assert(all@[8] == RuntimeArchAbi::Arch_ppc64);
            assert(all@[9] == RuntimeArchAbi::Arch_ppc64el);
            assert(all@[10] == RuntimeArchAbi::Arch_s390x);
            assert(all@[11] == RuntimeArchAbi::Arch_hppa);
            assert(all@[12] == RuntimeArchAbi::Arch_alpha);
            assert(all@[13] == RuntimeArchAbi::Arch_ia64);
            assert(all@[14] == RuntimeArchAbi::Arch_m68k);
            assert(all@[15] == RuntimeArchAbi::Arch_riscv64);
            assert(all@[16] == RuntimeArchAbi::Arch_sparc64);
            assert(all@[17] == RuntimeArchAbi::Arch_loongarch64);
        }
        all
    }
}

/// The defined architecture and ABI identifiers used to decorate active
/// runtime manifest filenames on some platforms.
#[derive(Debug, Clone, Copy, PartialEq, Eq, Structural)]
pub enum ManifestArchDecoration {
    /// Architecture not indicated in filename.
    Unspecified,
    /// Single architecture specified in filename.
    Specified(RuntimeArchAbi),
}

impl ManifestArchDecoration {
    /// The file name suffix of this decoration.
    pub open spec fn suffix(self) -> Seq<char> {
        match self {
            ManifestArchDecoration::Unspecified => ".json"@,
            ManifestArchDecoration::Specified(arch) => arch.suffix(),
        }
    }

    /// The decoration that names `arch`, or none where there is no
    /// architecture.
    pub open spec fn of(arch: Option<RuntimeArchAbi>) -> ManifestArchDecoration {
        match arch {
            Some(arch) => ManifestArchDecoration::Specified(arch),
            None => ManifestArchDecoration::Unspecified,
        }
    }

    /// Get the decorated runtime filename suffix corresponding to a
    /// given architecture.
    pub fn filename_suffix(self) -> (suffix: &'static str)
        ensures
            suffix@ == self.suffix(),
    {
        match self {
            ManifestArchDecoration::Unspecified => ".json",
            ManifestArchDecoration::Specified(arch) => arch.filename_suffix(),
        }
    }
}

impl From<Option<RuntimeArchAbi>> for ManifestArchDecoration {
    fn from(value: Option<RuntimeArchAbi>) -> (decoration: ManifestArchDecoration) {
        match value {
            Some(value) => ManifestArchDecoration::Specified(value),
            None => ManifestArchDecoration::Unspecified,
        }
    }
}

impl vstd::std_specs::convert::FromSpecImpl<Option<RuntimeArchAbi>> for ManifestArchDecoration {
    open spec fn obeys_from_spec() -> bool {
        true
    }

    open spec fn from_spec(value: Option<RuntimeArchAbi>) -> ManifestArchDecoration {
        ManifestArchDecoration::of(value)
    }
}

/// The suffix of an architecture is a dot, its name, and `.json`.
pub proof fn lemma_suffix_holds_name(arch: RuntimeArchAbi)
    ensures
        arch.suffix() == seq!['.'] + arch.name() + ".json"@,
{
    reveal_strlit(".json");
    reveal_strlit("x32");
    reveal_strlit("x86_64");
    reveal_strlit("i686");
    reveal_strlit("aarch64");
    reveal_strlit("armv7a-vfp");
    reveal_strlit("armv5te");
    reveal_strlit("mips64");
    reveal_strlit("mips");
    reveal_strlit("ppc64");
    reveal_strlit("ppc64el");
    reveal_strlit("s390x");
    reveal_strlit("hppa");
    reveal_strlit("alpha");
    reveal_strlit("ia64");
    reveal_strlit("m68k");
    reveal_strlit("riscv64");
    reveal_strlit("sparc64");
    reveal_strlit("loongarch64");
    reveal_strlit(".x32.json");
    reveal_strlit(".x86_64.json");
    reveal_strlit(".i686.json");
    reveal_strlit(".aarch64.json");
    reveal_strlit(".armv7a-vfp.json");
    reveal_strlit(".armv5te.json");
    reveal_strlit(".mips64.json");
    reveal_strlit(".mips.json");
    reveal_strlit(".ppc64.json");
    reveal_strlit(".ppc64el.json");
    reveal_strlit(".s390x.json");
    reveal_strlit(".hppa.json");
    reveal_strlit(".alpha.json");
    reveal_strlit(".ia64.json");
    reveal_strlit(".m68k.json");
    reveal_strlit(".riscv64.json");
    reveal_strlit(".sparc64.json");
    reveal_strlit(".loongarch64.json");
    assert(arch.suffix() =~= seq!['.'] + arch.name() + ".json"@);
}

/// Architectures and suffixes stand one to one: no two architectures
/// share a name or a suffix, and none has the undecorated suffix.
pub proof fn lemma_suffix_is_one_to_one(a: RuntimeArchAbi, b: RuntimeArchAbi)
    requires
        a != b,
    ensures
        a.name() != b.name(),
        a.suffix() != b.suffix(),
        a.suffix() != ".json"@,
{
    reveal_strlit(".json");
    reveal_strlit("x32");
    reveal_strlit("x86_64");
    reveal_strlit("i686");
    reveal_strlit("aarch64");
    reveal_strlit("armv7a-vfp");
    reveal_strlit("armv5te");
    reveal_strlit("mips64");
    reveal_strlit("mips");
    reveal_strlit("ppc64");
    reveal_strlit("ppc64el");
    reveal_strlit("s390x");
    reveal_strlit("hppa");
    reveal_strlit("alpha");
    reveal_strlit("ia64");
    reveal_strlit("m68k");
    reveal_strlit("riscv64");
    reveal_strlit("sparc64");
    reveal_strlit("loongarch64");
    lemma_suffix_holds_name(a);
    lemma_suffix_holds_name(b);
    lemma_names_differ(a, b);
    let sa = seq!['.'] + a.name() + ".json"@;
    let sb = seq!['.'] + b.name() + ".json"@;
    assert(sa.subrange(1, 1 + a.name().len() as int) =~= a.name());
    assert(sb.subrange(1, 1 + b.name().len() as int) =~= b.name());
    if sa == sb {
        assert(a.name().len() == b.name().len());
    }
    assert(a.name().len() > 0);
    assert(sa.len() != ".json"@.len());
}

/// No two architectures share a name.
proof fn lemma_names_differ(a: RuntimeArchAbi, b: RuntimeArchAbi)
    requires
        a != b,
    ensures
        a.name() != b.name(),
{
    reveal_strlit("x32");
    reveal_strlit("x86_64");
    reveal_strlit("i686");
    reveal_strlit("aarch64");
    reveal_strlit("armv7a-vfp");
    reveal_strlit("armv5te");
    reveal_strlit("mips64");
    reveal_strlit("mips");
    reveal_strlit("ppc64");
    reveal_strlit("ppc64el");
    reveal_strlit("s390x");
    reveal_strlit("hppa");
    reveal_strlit("alpha");
    reveal_strlit("ia64");
    reveal_strlit("m68k");
    reveal_strlit("riscv64");
    reveal_strlit("sparc64");
    reveal_strlit("loongarch64");
    assert(a.name().len() >= 4 || a.name() =~= "x32"@);
    if a.name() == b.name() {
        assert(a.name()[0] == b.name()[0]);
        assert(a.name()[1] == b.name()[1]);
        assert(a.name()[2] == b.name()[2]);
        assert(a.name().len() == b.name().len());
        if a.name().len() >= 4 {
            assert(a.name()[3] == b.name()[3]);
        }
    }
}

} // verus!
