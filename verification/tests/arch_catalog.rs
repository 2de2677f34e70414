use xrpicker::arch_abi::{ManifestArchDecoration, RuntimeArchAbi, TargetInfo};

fn target(arch: &str, pointer_width: u32, abi: &str, big_endian: bool) -> TargetInfo {
    TargetInfo {
        arch: arch.to_string(),
        pointer_width,
        abi: abi.to_string(),
        big_endian,
    }
}

#[test]
fn suffixes_of_some_architectures() {
    assert_eq!(RuntimeArchAbi::Arch_x32.filename_suffix(), ".x32.json");
    assert_eq!(RuntimeArchAbi::Arch_x86_64.filename_suffix(), ".x86_64.json");
    assert_eq!(RuntimeArchAbi::Arch_i686.filename_suffix(), ".i686.json");
    assert_eq!(RuntimeArchAbi::Arch_aarch64.filename_suffix(), ".aarch64.json");
    assert_eq!(
        RuntimeArchAbi::Arch_armv7a_vfp.filename_suffix(),
        ".armv7a-vfp.json"
    );
    assert_eq!(
        RuntimeArchAbi::Arch_loongarch64.filename_suffix(),
        ".loongarch64.json"
    );
    assert_eq!(RuntimeArchAbi::Arch_ppc64el.to_string(), "ppc64el");
}

#[test]
fn every_suffix_is_dot_name_dot_json_and_unique() {
    let all = RuntimeArchAbi::all();
    assert_eq!(all.len(), 18);
    for (i, a) in all.iter().enumerate() {
        assert_eq!(a.filename_suffix(), format!(".{}.json", a.to_string()));
        assert_ne!(a.filename_suffix(), ".json");
        for b in all.iter().skip(i + 1) {
            assert_ne!(a, b);
            assert_ne!(a.filename_suffix(), b.filename_suffix());
        }
    }
}

#[test]
fn decoration_suffixes() {
    assert_eq!(ManifestArchDecoration::Unspecified.filename_suffix(), ".json");
    assert_eq!(
        ManifestArchDecoration::Specified(RuntimeArchAbi::Arch_mips).filename_suffix(),
        ".mips.json"
    );
    assert_eq!(
        ManifestArchDecoration::from(Some(RuntimeArchAbi::Arch_s390x)),
        ManifestArchDecoration::Specified(RuntimeArchAbi::Arch_s390x)
    );
    assert_eq!(
        ManifestArchDecoration::from(None),
        ManifestArchDecoration::Unspecified
    );
}

#[test]
fn current_arch_of_targets() {
    let arch = |t: TargetInfo| RuntimeArchAbi::get_current_arch(&t);
    assert_eq!(arch(target("x86_64", 64, "", false)), Some(RuntimeArchAbi::Arch_x86_64));
    assert_eq!(arch(target("x86_64", 32, "x32", false)), Some(RuntimeArchAbi::Arch_x32));
    assert_eq!(arch(target("x86", 32, "", false)), Some(RuntimeArchAbi::Arch_i686));
    assert_eq!(arch(target("aarch64", 64, "", false)), Some(RuntimeArchAbi::Arch_aarch64));
    assert_eq!(
        arch(target("arm", 32, "eabihf", false)),
        Some(RuntimeArchAbi::Arch_armv7a_vfp)
    );
    assert_eq!(arch(target("arm", 32, "eabi", false)), Some(RuntimeArchAbi::Arch_armv5te));
    assert_eq!(arch(target("arm", 32, "", false)), None);
    assert_eq!(arch(target("mips64", 64, "", false)), Some(RuntimeArchAbi::Arch_mips64));
    assert_eq!(arch(target("mips", 32, "", true)), Some(RuntimeArchAbi::Arch_mips));
    assert_eq!(arch(target("powerpc64", 64, "", true)), Some(RuntimeArchAbi::Arch_ppc64));
    assert_eq!(arch(target("powerpc64", 64, "", false)), Some(RuntimeArchAbi::Arch_ppc64el));
    assert_eq!(arch(target("s390x", 64, "", true)), Some(RuntimeArchAbi::Arch_s390x));
    assert_eq!(arch(target("m68k", 32, "", true)), Some(RuntimeArchAbi::Arch_m68k));
    assert_eq!(arch(target("riscv64", 64, "", false)), Some(RuntimeArchAbi::Arch_riscv64));
    assert_eq!(arch(target("sparc64", 64, "", true)), Some(RuntimeArchAbi::Arch_sparc64));
    assert_eq!(
        arch(target("loongarch64", 64, "", false)),
        Some(RuntimeArchAbi::Arch_loongarch64)
    );
    assert_eq!(arch(target("wasm32", 32, "", false)), None);
    assert_eq!(arch(target("powerpc", 32, "", true)), None);
}
