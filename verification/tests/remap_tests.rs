use maa_cli::{extract_mapper, Os};

#[test]
fn resource_entries_preserve_paths() {
    assert_eq!(
        extract_mapper("resource/foo/bar.txt", "libdir", "resdir", Os::Linux, true),
        Some("resdir/foo/bar.txt".to_string())
    );
    assert_eq!(
        extract_mapper("pkg/resource/foo/bar.txt", "libdir", "resdir", Os::Linux, true),
        Some("resdir/foo/bar.txt".to_string())
    );
}

#[test]
fn resource_entries_dropped_when_disabled() {
    assert_eq!(
        extract_mapper("resource/foo/bar.txt", "libdir", "resdir", Os::Linux, false),
        None
    );
}

#[test]
fn library_entries_flatten() {
    assert_eq!(
        extract_mapper("lib/libMaaCore.so.1", "libdir", "resdir", Os::Linux, true),
        Some("libdir/libMaaCore.so.1".to_string())
    );
    assert_eq!(
        extract_mapper("deep/nested/dir/libMaaCore.so", "libdir", "resdir", Os::Linux, true),
        Some("libdir/libMaaCore.so".to_string())
    );
    assert_eq!(
        extract_mapper("bin/MaaCore.dll", "libdir", "resdir", Os::Windows, true),
        Some("libdir/MaaCore.dll".to_string())
    );
    assert_eq!(
        extract_mapper("libMaaCore.dylib", "libdir", "resdir", Os::Macos, true),
        Some("libdir/libMaaCore.dylib".to_string())
    );
}

#[test]
fn unmatched_entries_dropped() {
    assert_eq!(extract_mapper("README.md", "libdir", "resdir", Os::Linux, true), None);
    assert_eq!(extract_mapper("docs/manual.pdf", "libdir", "resdir", Os::Linux, true), None);
    assert_eq!(extract_mapper("", "libdir", "resdir", Os::Linux, true), None);
    // The suffix convention is per platform: a Linux library is not one on
    // Windows.
    assert_eq!(extract_mapper("libMaaCore.so", "libdir", "resdir", Os::Windows, true), None);
}

#[test]
fn empty_and_dot_pieces_vanish() {
    assert_eq!(
        extract_mapper("resource//foo/./bar.txt", "libdir", "resdir", Os::Linux, true),
        Some("resdir/foo/bar.txt".to_string())
    );
    assert_eq!(
        extract_mapper("./resource/x", "libdir", "resdir", Os::Linux, true),
        Some("resdir/x".to_string())
    );
    assert_eq!(
        extract_mapper("resource", "libdir", "resdir", Os::Linux, true),
        Some("resdir".to_string())
    );
}

#[test]
fn core_lib_names_per_platform() {
    assert_eq!(Os::Linux.core_lib_name(), "libMaaCore.so");
    assert_eq!(Os::Macos.core_lib_name(), "libMaaCore.dylib");
    assert_eq!(Os::Windows.core_lib_name(), "MaaCore.dll");
    assert_eq!(Os::Linux.dll_prefix(), "lib");
    assert_eq!(Os::Windows.dll_prefix(), "");
    assert_eq!(Os::Macos.dll_suffix(), ".dylib");
}
