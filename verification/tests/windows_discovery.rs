use xrpicker::arch_detect::RuntimeBitness;
use xrpicker::manifest::{Runtime, RuntimeManifest};
use xrpicker::paths::{PathSimplifier, PathStyle};
use xrpicker::platform::PlatformRuntime;
use xrpicker::windows::{
    check_active, enumerate_reg_runtimes, make_available_runtimes_key, make_platform,
    make_prefix_key, make_prefix_key_flags_32, make_prefix_key_flags_64, maybe_runtime,
    read_access, system_dir_32, system_dir_64, varjo_manifest_path, winmr_manifest_paths,
    write_access, ExtraManifest, RegistryValue, RegistryWrite, RuntimeCollection, SpecialFolders,
    WindowsActiveRuntimeData, WindowsCandidate, WindowsDiscovery, WindowsHost, WindowsRuntime,
};
use xrpicker::{ActiveState, Error, ManifestError};

const HOST_64: WindowsHost = WindowsHost {
    is_64_bit_process: true,
    is_wow64: false,
};
const HOST_WOW64: WindowsHost = WindowsHost {
    is_64_bit_process: false,
    is_wow64: true,
};
const HOST_32: WindowsHost = WindowsHost {
    is_64_bit_process: false,
    is_wow64: false,
};

fn manifest(version: &str, library_path: &str, name: Option<&str>) -> RuntimeManifest {
    RuntimeManifest::new(
        version.to_string(),
        Runtime {
            library_path: library_path.to_string(),
            name: name.map(|n| n.to_string()),
            functions: None,
        },
    )
}

fn candidate(path: &str) -> WindowsCandidate {
    WindowsCandidate {
        path: path.to_string(),
        canonical_path: Some(path.to_string()),
        loaded: Ok(manifest("1.0.0", "rt.dll", Some(path))),
    }
}

fn spelled(path: &str, canonical: &str) -> WindowsCandidate {
    WindowsCandidate {
        path: path.to_string(),
        canonical_path: Some(canonical.to_string()),
        loaded: Ok(manifest("1.0.0", "rt.dll", Some(path))),
    }
}

fn failing(path: &str, e: Error) -> WindowsCandidate {
    WindowsCandidate {
        path: path.to_string(),
        canonical_path: None,
        loaded: Err(e),
    }
}

fn discovery(native: Vec<WindowsCandidate>, narrow: Vec<WindowsCandidate>) -> WindowsDiscovery {
    WindowsDiscovery {
        native,
        narrow,
        varjo: None,
        winmr_native: None,
        winmr_narrow: None,
        extra: Vec::new(),
    }
}

fn strings(items: &[&str]) -> Vec<String> {
    items.iter().map(|s| s.to_string()).collect()
}

fn manifests(runtimes: &[WindowsRuntime]) -> Vec<Vec<String>> {
    runtimes.iter().map(|r| r.get_manifests()).collect()
}

fn folders() -> SpecialFolders {
    SpecialFolders {
        system: Some("C:\\Windows\\System32".to_string()),
        system_x86: Some("C:\\Windows\\SysWOW64".to_string()),
        program_files: Some("C:\\Program Files".to_string()),
    }
}

#[test]
fn registry_locations() {
    assert_eq!(make_prefix_key(), "Software\\Khronos\\openxr\\1");
    assert_eq!(
        make_available_runtimes_key(),
        "Software\\Khronos\\openxr\\1\\AvailableRuntimes"
    );
    assert_eq!(make_prefix_key_flags_64(&HOST_64), Some(0x0100));
    assert_eq!(make_prefix_key_flags_32(&HOST_64), Some(0x0200));
    assert_eq!(make_prefix_key_flags_64(&HOST_WOW64), Some(0x0100));
    assert_eq!(make_prefix_key_flags_64(&HOST_32), None);
    assert_eq!(make_prefix_key_flags_32(&HOST_32), Some(0x0200));
    assert_eq!(read_access(0x0100), 0x20119);
    assert_eq!(read_access(0x0200), 0x20219);
    assert_eq!(write_access(0x0100), 0x2011f);
    assert_eq!(write_access(0x0200), 0x2021f);
}

#[test]
fn system_directories_by_host() {
    assert_eq!(
        system_dir_64(&HOST_64, &folders()),
        Some("C:\\Windows\\System32".to_string())
    );
    assert_eq!(
        system_dir_32(&HOST_64, &folders()),
        Some("C:\\Windows\\SysWOW64".to_string())
    );
    assert_eq!(
        system_dir_64(&HOST_WOW64, &folders()),
        Some("C:\\Windows\\sysnative".to_string())
    );
    assert_eq!(
        system_dir_32(&HOST_WOW64, &folders()),
        Some("C:\\Windows\\System32".to_string())
    );
    assert_eq!(system_dir_64(&HOST_32, &folders()), None);
    let unknown = SpecialFolders {
        system: None,
        system_x86: None,
        program_files: None,
    };
    assert_eq!(system_dir_64(&HOST_64, &unknown), None);
    assert_eq!(system_dir_32(&HOST_64, &unknown), None);
    assert_eq!(varjo_manifest_path(&HOST_64, &unknown), None);
}

#[test]
fn probed_manifest_paths() {
    assert_eq!(
        winmr_manifest_paths(&HOST_64, &folders()),
        (
            Some("C:\\Windows\\System32\\MixedRealityRuntime.json".to_string()),
            Some("C:\\Windows\\SysWOW64\\MixedRealityRuntime.json".to_string())
        )
    );
    assert_eq!(
        varjo_manifest_path(&HOST_64, &folders()),
        Some("C:\\Program Files\\Varjo\\varjo-openxr\\VarjoOpenXR.json".to_string())
    );
    assert_eq!(varjo_manifest_path(&HOST_WOW64, &folders()), None);
}

#[test]
fn only_values_of_zero_name_available_runtimes() {
    let value = |name: &str, dword: Option<u32>| RegistryValue {
        name: name.to_string(),
        dword,
    };
    assert_eq!(
        maybe_runtime(value("C:\\A\\rt.json", Some(0))),
        Some("C:\\A\\rt.json".to_string())
    );
    assert_eq!(maybe_runtime(value("C:\\A\\rt.json", Some(1))), None);
    assert_eq!(maybe_runtime(value("C:\\A\\rt.json", None)), None);
    assert_eq!(
        enumerate_reg_runtimes(vec![
            value("C:\\A\\rt.json", Some(0)),
            value("C:\\B\\off.json", Some(1)),
            value("C:\\C\\text.json", None),
            value("C:\\D\\rt.json", Some(0)),
        ]),
        strings(&["C:\\A\\rt.json", "C:\\D\\rt.json"])
    );
}

#[test]
fn same_parent_pairs_native_and_narrow() {
    let found = discovery(
        vec![candidate("C:\\A\\rt.json"), candidate("C:\\B\\rt.json")],
        vec![candidate("C:\\A\\rt32.json")],
    );
    let (runtimes, errors) = make_platform()
        .find_available_runtimes(&HOST_64, found)
        .unwrap();
    assert!(errors.is_empty());
    assert_eq!(
        manifests(&runtimes),
        vec![
            strings(&["C:\\A\\rt.json", "C:\\A\\rt32.json"]),
            strings(&["C:\\B\\rt.json"])
        ]
    );
    assert_eq!(runtimes[0].runtimes().len(), 2);
    assert_eq!(runtimes[1].runtimes().len(), 1);
    assert_eq!(runtimes[1].runtimes()[0].get_manifest_path(), "C:\\B\\rt.json");
}

#[test]
fn lone_narrow_manifest_stands_alone() {
    let found = discovery(
        vec![candidate("C:\\A\\rt.json")],
        vec![candidate("C:\\Z\\rt32.json")],
    );
    let (runtimes, _) = make_platform()
        .find_available_runtimes(&HOST_64, found)
        .unwrap();
    assert_eq!(
        manifests(&runtimes),
        vec![strings(&["C:\\A\\rt.json"]), strings(&["C:\\Z\\rt32.json"])]
    );
    let data = WindowsActiveRuntimeData::new(None, Some("C:\\Z\\rt32.json".to_string()));
    assert_eq!(data.check_runtime(&runtimes[1]), ActiveState::ActiveNarrowOnly);
    assert_eq!(data.check_runtime(&runtimes[0]), ActiveState::NotActive);
}

#[test]
fn the_last_narrow_manifest_of_a_directory_is_the_counterpart() {
    let found = discovery(
        vec![candidate("C:\\A\\rt.json")],
        vec![candidate("C:\\A\\first32.json"), candidate("C:\\A\\last32.json")],
    );
    let (runtimes, _) = make_platform()
        .find_available_runtimes(&HOST_64, found)
        .unwrap();
    assert_eq!(
        manifests(&runtimes),
        vec![
            strings(&["C:\\A\\rt.json", "C:\\A\\last32.json"]),
            strings(&["C:\\A\\first32.json"])
        ]
    );
}

#[test]
fn a_manifest_registered_twice_is_one_runtime() {
    let found = discovery(
        vec![candidate("C:\\A\\rt.json"), candidate("C:\\A\\rt.json")],
        vec![candidate("C:\\A\\rt.json")],
    );
    let (runtimes, errors) = make_platform()
        .find_available_runtimes(&HOST_64, found)
        .unwrap();
    assert!(errors.is_empty());
    assert_eq!(
        manifests(&runtimes),
        vec![strings(&["C:\\A\\rt.json", "C:\\A\\rt.json"])]
    );
}

#[test]
fn failures_are_collected_under_the_manifest_path() {
    let found = discovery(
        vec![
            failing("C:\\A\\rt.json", Error::IoError("gone".to_string())),
            candidate("C:\\B\\rt.json"),
        ],
        vec![WindowsCandidate {
            path: "C:\\C\\rt32.json".to_string(),
            canonical_path: Some("C:\\C\\rt32.json".to_string()),
            loaded: Ok(manifest("0.1.0", "rt.dll", None)),
        }],
    );
    let (runtimes, errors) = make_platform()
        .find_available_runtimes(&HOST_64, found)
        .unwrap();
    assert_eq!(manifests(&runtimes), vec![strings(&["C:\\B\\rt.json"])]);
    assert_eq!(
        errors,
        vec![
            ManifestError("C:\\A\\rt.json".to_string(), Error::IoError("gone".to_string())),
            ManifestError("C:\\C\\rt32.json".to_string(), Error::ManifestVersionMismatch),
        ]
    );
}

#[test]
fn a_failing_counterpart_leaves_the_native_manifest_alone() {
    let found = discovery(
        vec![candidate("C:\\A\\rt.json")],
        vec![WindowsCandidate {
            path: "C:\\A\\rt32.json".to_string(),
            canonical_path: Some("C:\\A\\rt32.json".to_string()),
            loaded: Ok(manifest("2.0.0", "rt32.dll", None)),
        }],
    );
    let (runtimes, errors) = make_platform()
        .find_available_runtimes(&HOST_64, found)
        .unwrap();
    assert_eq!(manifests(&runtimes), vec![strings(&["C:\\A\\rt.json"])]);
    assert_eq!(
        errors,
        vec![ManifestError(
            "C:\\A\\rt32.json".to_string(),
            Error::ManifestVersionMismatch
        )]
    );
}

#[test]
fn an_unreadable_counterpart_is_one_error_under_its_own_path() {
    let found = discovery(
        vec![candidate("C:\\A\\rt.json")],
        vec![failing("C:\\A\\rt32.json", Error::JsonParseError("eof".to_string()))],
    );
    let (runtimes, errors) = make_platform()
        .find_available_runtimes(&HOST_64, found)
        .unwrap();
    assert_eq!(manifests(&runtimes), vec![strings(&["C:\\A\\rt.json"])]);
    assert_eq!(
        errors,
        vec![ManifestError(
            "C:\\A\\rt32.json".to_string(),
            Error::JsonParseError("eof".to_string())
        )]
    );
}

#[test]
fn a_failing_native_manifest_leaves_its_counterpart_alone() {
    let found = discovery(
        vec![failing("C:\\A\\rt.json", Error::IoError("gone".to_string()))],
        vec![candidate("C:\\A\\rt32.json")],
    );
    let (runtimes, errors) = make_platform()
        .find_available_runtimes(&HOST_64, found)
        .unwrap();
    assert_eq!(manifests(&runtimes), vec![strings(&["C:\\A\\rt32.json"])]);
    assert_eq!(
        errors,
        vec![ManifestError(
            "C:\\A\\rt.json".to_string(),
            Error::IoError("gone".to_string())
        )]
    );
}

#[test]
fn a_second_native_manifest_of_a_directory_stands_alone() {
    let found = discovery(
        vec![candidate("C:\\A\\one.json"), candidate("C:\\A\\two.json")],
        vec![candidate("C:\\A\\rt32.json")],
    );
    let (runtimes, errors) = make_platform()
        .find_available_runtimes(&HOST_64, found)
        .unwrap();
    assert!(errors.is_empty());
    assert_eq!(
        manifests(&runtimes),
        vec![
            strings(&["C:\\A\\one.json", "C:\\A\\rt32.json"]),
            strings(&["C:\\A\\two.json"])
        ]
    );
}

#[test]
fn two_spellings_of_one_file_are_one_runtime() {
    let found = discovery(
        vec![
            spelled("C:\\A\\rt.json", "C:\\A\\rt.json"),
            spelled("C:\\A\\..\\A\\rt.json", "C:\\A\\rt.json"),
            spelled("c:/a/RT.JSON", "C:\\A\\rt.json"),
        ],
        vec![spelled("C:/A/rt.json", "C:\\A\\rt.json")],
    );
    let (runtimes, errors) = make_platform()
        .find_available_runtimes(&HOST_64, found)
        .unwrap();
    assert!(errors.is_empty());
    assert_eq!(
        manifests(&runtimes),
        vec![strings(&["C:\\A\\rt.json", "C:/A/rt.json"])]
    );
    let found = discovery(
        vec![
            spelled("D:\\x\\rt.json", "C:\\A\\rt.json"),
            spelled("E:\\y\\rt.json", "C:\\A\\rt.json"),
        ],
        vec![spelled("F:\\z\\rt.json", "C:\\A\\rt.json")],
    );
    let (runtimes, _) = make_platform()
        .find_available_runtimes(&HOST_64, found)
        .unwrap();
    assert_eq!(manifests(&runtimes), vec![strings(&["D:\\x\\rt.json"])]);
}

#[test]
fn parents_pair_whichever_separators_spell_them() {
    let found = discovery(
        vec![candidate("C:/A/rt.json")],
        vec![candidate("C:\\A\\rt32.json")],
    );
    let (runtimes, _) = make_platform()
        .find_available_runtimes(&HOST_64, found)
        .unwrap();
    assert_eq!(
        manifests(&runtimes),
        vec![strings(&["C:/A/rt.json", "C:\\A\\rt32.json"])]
    );
}

#[test]
fn probed_runtimes_are_added_last_and_only_once() {
    let found = WindowsDiscovery {
        native: vec![candidate("C:\\Windows\\System32\\MixedRealityRuntime.json")],
        narrow: Vec::new(),
        varjo: Some(candidate("C:\\Program Files\\Varjo\\varjo-openxr\\VarjoOpenXR.json")),
        winmr_native: Some(candidate("C:\\Windows\\System32\\MixedRealityRuntime.json")),
        winmr_narrow: Some(candidate("C:\\Windows\\SysWOW64\\MixedRealityRuntime.json")),
        extra: Vec::new(),
    };
    let (runtimes, errors) = make_platform()
        .find_available_runtimes(&HOST_64, found)
        .unwrap();
    assert!(errors.is_empty());
    assert_eq!(
        manifests(&runtimes),
        vec![
            strings(&["C:\\Windows\\System32\\MixedRealityRuntime.json"]),
            strings(&["C:\\Program Files\\Varjo\\varjo-openxr\\VarjoOpenXR.json"]),
            // the native manifest is claimed, so the narrow one stands alone
            strings(&["C:\\Windows\\SysWOW64\\MixedRealityRuntime.json"]),
        ]
    );
}

#[test]
fn probed_failures_are_non_fatal() {
    let found = WindowsDiscovery {
        native: Vec::new(),
        narrow: Vec::new(),
        varjo: Some(failing("C:\\V\\VarjoOpenXR.json", Error::IoError("v".to_string()))),
        winmr_native: None,
        winmr_narrow: Some(failing(
            "C:\\Windows\\SysWOW64\\MixedRealityRuntime.json",
            Error::IoError("w".to_string()),
        )),
        extra: Vec::new(),
    };
    let (runtimes, errors) = make_platform()
        .find_available_runtimes(&HOST_64, found)
        .unwrap();
    assert!(runtimes.is_empty());
    assert_eq!(
        errors,
        vec![
            ManifestError("C:\\V\\VarjoOpenXR.json".to_string(), Error::IoError("v".to_string())),
            ManifestError(
                "C:\\Windows\\SysWOW64\\MixedRealityRuntime.json".to_string(),
                Error::IoError("w".to_string())
            ),
        ]
    );
}

#[test]
fn mixed_reality_manifests_fall_back_to_the_width_that_loads() {
    let native = candidate("C:\\Windows\\System32\\MixedRealityRuntime.json");
    let narrow = failing(
        "C:\\Windows\\SysWOW64\\MixedRealityRuntime.json",
        Error::IoError("w".to_string()),
    );
    let mut collection = RuntimeCollection::new();
    assert_eq!(
        collection.try_add_winmr(Some(&native), Some(&narrow)),
        vec![ManifestError(
            "C:\\Windows\\SysWOW64\\MixedRealityRuntime.json".to_string(),
            Error::IoError("w".to_string())
        )]
    );
    assert_eq!(
        manifests(&collection.into_runtimes()),
        vec![strings(&["C:\\Windows\\System32\\MixedRealityRuntime.json"])]
    );
    let mut collection = RuntimeCollection::new();
    let good = candidate("C:\\Windows\\SysWOW64\\MixedRealityRuntime.json");
    assert_eq!(collection.try_add_winmr(Some(&native), Some(&good)), Vec::new());
    assert_eq!(collection.try_add_winmr(None, None), Vec::new());
    assert_eq!(collection.into_runtimes().len(), 1);
}

#[test]
fn native_and_narrow_attempts() {
    let mut collection = RuntimeCollection::new();
    let a = candidate("C:\\A\\rt.json");
    let a32 = candidate("C:\\A\\rt32.json");
    let b = candidate("C:\\B\\rt.json");
    let bad = failing("C:\\B\\rt32.json", Error::IoError("gone".to_string()));
    assert_eq!(collection.try_add_native(&a, Some(&a32)), Ok(()));
    // the counterpart is claimed: the native manifest stands alone
    assert_eq!(collection.try_add_native(&b, Some(&a32)), Ok(()));
    assert!(collection.claims(&"C:\\B\\rt.json".to_string()));
    assert_eq!(collection.try_add_narrow(&a32), Ok(()));
    assert_eq!(
        collection.try_add_narrow(&bad),
        Err(ManifestError(
            "C:\\B\\rt32.json".to_string(),
            Error::IoError("gone".to_string())
        ))
    );
    assert_eq!(
        manifests(&collection.into_runtimes()),
        vec![
            strings(&["C:\\A\\rt.json", "C:\\A\\rt32.json"]),
            strings(&["C:\\B\\rt.json"])
        ]
    );
}

#[test]
fn varjo_is_not_looked_at_by_narrow_processes() {
    let mut collection = RuntimeCollection::new();
    let varjo = candidate("C:\\V\\VarjoOpenXR.json");
    assert_eq!(collection.try_add_varjo(&HOST_WOW64, Some(&varjo)), Ok(()));
    assert!(collection.into_runtimes().is_empty());
    let mut collection = RuntimeCollection::new();
    assert_eq!(collection.try_add_varjo(&HOST_64, Some(&varjo)), Ok(()));
    assert_eq!(collection.try_add_varjo(&HOST_64, None), Ok(()));
    assert_eq!(collection.into_runtimes().len(), 1);
}

#[test]
fn extra_manifests_go_by_their_width() {
    let extra = |path: &str, bitness: Result<RuntimeBitness, ManifestError>| ExtraManifest {
        candidate: candidate(path),
        bitness,
    };
    let found = WindowsDiscovery {
        native: vec![candidate("C:\\A\\rt.json")],
        narrow: Vec::new(),
        varjo: None,
        winmr_native: None,
        winmr_narrow: None,
        extra: vec![
            extra("D:\\x64\\rt.json", Ok(RuntimeBitness::BitWidth64)),
            extra("D:\\x86\\rt.json", Ok(RuntimeBitness::BitWidth32)),
            extra("D:\\any\\rt.json", Ok(RuntimeBitness::Universal)),
            extra("C:\\A\\rt.json", Ok(RuntimeBitness::BitWidth64)),
            extra(
                "D:\\bad\\rt.json",
                Err(ManifestError(
                    "D:\\bad\\rt.dll".to_string(),
                    Error::RuntimeBinaryLoadError("D:\\bad\\rt.dll".to_string()),
                )),
            ),
        ],
    };
    let (runtimes, errors) = make_platform()
        .find_available_runtimes(&HOST_64, found)
        .unwrap();
    assert_eq!(
        manifests(&runtimes),
        vec![
            strings(&["C:\\A\\rt.json"]),
            strings(&["D:\\x64\\rt.json"]),
            strings(&["D:\\x86\\rt.json"]),
            strings(&["D:\\any\\rt.json", "D:\\any\\rt.json"]),
        ]
    );
    assert_eq!(
        errors,
        vec![ManifestError(
            "D:\\bad\\rt.dll".to_string(),
            Error::RuntimeBinaryLoadError("D:\\bad\\rt.dll".to_string())
        )]
    );
    let data = WindowsActiveRuntimeData::new(None, Some("D:\\x86\\rt.json".to_string()));
    assert_eq!(data.check_runtime(&runtimes[2]), ActiveState::ActiveNarrowOnly);
    assert_eq!(data.check_runtime(&runtimes[1]), ActiveState::NotActive);
}

#[test]
fn try_add_rules() {
    let mut collection = RuntimeCollection::new();
    let a = candidate("C:\\A\\rt.json");
    let a32 = candidate("C:\\A\\rt32.json");
    let b = candidate("C:\\B\\rt.json");
    assert_eq!(
        collection.try_add(None, None),
        Err(Error::EnumerationError(
            "Tried to add a runtime with no manifest paths!".to_string()
        ))
    );
    assert_eq!(collection.try_add(Some(&a), Some(&a32)), Ok(()));
    assert!(collection.claims(&"C:\\A\\rt.json".to_string()));
    assert!(collection.claims(&"C:\\A\\rt32.json".to_string()));
    assert!(!collection.claims(&"C:\\B\\rt.json".to_string()));
    // a claimed path makes the attempt a no-op, even with a new partner
    assert_eq!(collection.try_add(Some(&b), Some(&a32)), Ok(()));
    assert!(!collection.claims(&"C:\\B\\rt.json".to_string()));
    let bad = failing("C:\\C\\rt.json", Error::IoError("gone".to_string()));
    assert_eq!(
        collection.try_add(Some(&bad), None),
        Err(Error::IoError("gone".to_string()))
    );
    assert!(!collection.claims(&"C:\\C\\rt.json".to_string()));
    assert_eq!(collection.into_runtimes().len(), 1);
}

#[test]
fn runtime_of_two_widths() {
    let native = WindowsCandidate {
        path: "C:\\A\\rt.json".to_string(),
        canonical_path: None,
        loaded: Ok(manifest("1.0.0", "bin\\rt64.dll", Some("Rt"))),
    };
    let narrow = WindowsCandidate {
        path: "C:\\A\\rt32.json".to_string(),
        canonical_path: None,
        loaded: Ok(manifest("1.0.0", "bin\\rt32.dll", Some("Rt (32)"))),
    };
    let runtime = WindowsRuntime::new(Some(&native), Some(&narrow)).unwrap();
    assert_eq!(runtime.get_runtime_name(), "Rt");
    assert_eq!(runtime.clone(), runtime);
    assert_eq!(
        runtime.get_libraries(Some("C:\\A\\bin\\rt64.dll".to_string()), None),
        strings(&["C:\\A\\bin\\rt64.dll", "C:\\A\\bin\\rt32.dll"])
    );
    let simplifier = PathSimplifier::new(None, PathStyle::Windows);
    assert_eq!(
        runtime.describe(&simplifier),
        "C:\\A\\rt.json\n    \u{2ba9} bin\\rt64.dll relative to the manifest\nC:\\A\\rt32.json\n    \u{2ba9} bin\\rt32.dll relative to the manifest"
    );
    let only_narrow = WindowsRuntime::new(None, Some(&narrow)).unwrap();
    assert_eq!(only_narrow.get_runtime_name(), "Rt (32)");
    assert_eq!(only_narrow.get_manifests(), strings(&["C:\\A\\rt32.json"]));
    assert!(matches!(
        WindowsRuntime::new(None, None),
        Err(Error::EnumerationError(_))
    ));
}

#[test]
fn activation_writes_only_the_widths_provided() {
    let write = |access: u32, data: &str| RegistryWrite {
        key: "Software\\Khronos\\openxr\\1".to_string(),
        access,
        value_name: "ActiveRuntime".to_string(),
        data: data.to_string(),
    };
    let a = candidate("C:\\A\\rt.json");
    let a32 = candidate("C:\\A\\rt32.json");
    let both = WindowsRuntime::new(Some(&a), Some(&a32)).unwrap();
    assert_eq!(
        both.make_active(&HOST_64),
        vec![write(0x2011f, "C:\\A\\rt.json"), write(0x2021f, "C:\\A\\rt32.json")]
    );
    let native_only = WindowsRuntime::new(Some(&a), None).unwrap();
    assert_eq!(
        native_only.make_active(&HOST_64),
        vec![write(0x2011f, "C:\\A\\rt.json")]
    );
    let narrow_only = WindowsRuntime::new(None, Some(&a32)).unwrap();
    assert_eq!(
        narrow_only.make_active(&HOST_64),
        vec![write(0x2021f, "C:\\A\\rt32.json")]
    );
    // a process that does not reach the native view leaves it alone
    assert_eq!(
        both.make_active(&HOST_32),
        vec![write(0x2021f, "C:\\A\\rt32.json")]
    );
    assert_eq!(native_only.make_active(&HOST_32), Vec::new());
}

#[test]
fn active_state_combines_both_widths() {
    let a = candidate("C:\\A\\rt.json");
    let a32 = candidate("C:\\A\\rt32.json");
    let both = WindowsRuntime::new(Some(&a), Some(&a32)).unwrap();
    let native_only = WindowsRuntime::new(Some(&a), None).unwrap();
    let platform = make_platform();
    let state = |native: Option<&str>, narrow: Option<&str>, runtime: &WindowsRuntime| {
        let data = platform.get_active_data(
            &HOST_64,
            native.map(|s| s.to_string()),
            narrow.map(|s| s.to_string()),
        );
        platform.get_runtime_active_state(runtime, &data)
    };
    assert_eq!(
        state(Some("C:\\A\\rt.json"), Some("C:\\A\\rt32.json"), &both),
        ActiveState::ActiveBoth
    );
    assert_eq!(
        state(Some("C:\\A\\rt.json"), Some("C:\\B\\rt32.json"), &both),
        ActiveState::ActiveNativeOnly
    );
    assert_eq!(
        state(None, Some("C:\\A\\rt32.json"), &both),
        ActiveState::ActiveNarrowOnly
    );
    assert_eq!(state(None, None, &both), ActiveState::NotActive);
    // the native view names the narrow manifest: no match
    assert_eq!(state(Some("C:\\A\\rt32.json"), None, &both), ActiveState::NotActive);
    assert_eq!(
        state(Some("C:\\A\\rt.json"), Some("C:\\A\\rt.json"), &native_only),
        ActiveState::ActiveNativeOnly
    );
    let data = WindowsActiveRuntimeData::new(
        Some("C:\\A\\rt.json".to_string()),
        Some("C:\\A\\rt32.json".to_string()),
    );
    assert_eq!(
        platform.get_active_runtime_manifests(&data),
        strings(&["C:\\A\\rt.json", "C:\\A\\rt32.json"])
    );
    assert!(!check_active(&None, &None));
    // a view that the process does not reach names nothing
    let narrow_host = platform.get_active_data(&HOST_32, Some("C:\\A\\rt.json".to_string()), None);
    assert_eq!(narrow_host, WindowsActiveRuntimeData::new(None, None));
}
