use ironcore_host::assemblies::{get_runtime_dir, get_runtime_path, get_trusted_assemblies, is_dll_file};
use ironcore_host::clr::{
    CoreClrDelegatePointer, CoreClrHostHandle, CoreClrInstance, SessionState, SymbolReport,
};
use ironcore_host::properties::{contains_nul, PropertyBag};
use ironcore_host::result::{IronCoreError, HRESULT};

fn all_symbols() -> SymbolReport {
    SymbolReport { initialize: true, execute_assembly: true, create_delegate: true, shutdown: true }
}

#[test]
fn translate_known_table() {
    assert_eq!(HRESULT::translate(0), HRESULT::Success);
    assert_eq!(HRESULT::translate(0x8007_0002), HRESULT::FileNotFound);
    assert_eq!(HRESULT::translate(0x8013_1522), HRESULT::TypeLoadFailure);
    assert_eq!(HRESULT::translate(0x8013_1523), HRESULT::EntryPointNotFound);
    assert_eq!(HRESULT::translate(0x8013_1524), HRESULT::DllNotFound);
}

#[test]
fn translate_succeeds_only_on_zero_within_table() {
    for code in [0u32, 0x8007_0002, 0x8013_1522, 0x8013_1523, 0x8013_1524] {
        assert_eq!(HRESULT::translate(code).succeeded(), code == 0);
    }
}

#[test]
fn translate_outside_table_goes_by_sign() {
    assert_eq!(HRESULT::translate(1), HRESULT::UnknownFailure(1));
    assert!(HRESULT::translate(1).succeeded());
    assert!(!HRESULT::translate(1).failed());
    assert_eq!(HRESULT::translate(0x7FFF_FFFF), HRESULT::UnknownFailure(0x7FFF_FFFF));
    assert!(HRESULT::translate(0x7FFF_FFFF).succeeded());
    assert_eq!(HRESULT::translate(0x8000_4005), HRESULT::UnknownFailure(0x8000_4005));
    assert!(HRESULT::translate(0x8000_4005).failed());
    assert!(!HRESULT::translate(0x8000_4005).succeeded());
}

#[test]
fn file_not_found_fails_and_zero_succeeds() {
    assert_eq!(HRESULT::translate(0x8007_0002), HRESULT::FileNotFound);
    assert!(HRESULT::translate(0x8007_0002).failed());
    assert_eq!(HRESULT::translate(0), HRESULT::Success);
    assert!(!HRESULT::translate(0).failed());
}

#[test]
fn check_propagates_failures_only() {
    assert!(HRESULT::translate(0).check().is_ok());
    assert!(HRESULT::translate(1).check().is_ok());
    let err = HRESULT::translate(0x8007_0002).check().unwrap_err();
    assert!(matches!(err, IronCoreError::StatusError(HRESULT::FileNotFound)));
}

#[test]
fn contains_nul_finds_embedded_nulls() {
    assert!(!contains_nul(""));
    assert!(!contains_nul("plain"));
    assert!(contains_nul("bad\0path"));
    assert!(contains_nul("\0"));
    assert!(contains_nul("tail\0"));
}

#[test]
fn property_bag_has_five_fixed_pairs_in_order() {
    let bag = PropertyBag::build("a.dll;b.dll", "C:\\app", "C:\\app", "C:\\native").unwrap();
    assert_eq!(bag.keys.len(), 5);
    assert_eq!(bag.values.len(), 5);
    assert_eq!(bag.keys[0], "TRUSTED_PLATFORM_ASSEMBLIES");
    assert_eq!(bag.keys[1], "APP_PATHS");
    assert_eq!(bag.keys[2], "APP_NI_PATHS");
    assert_eq!(bag.keys[3], "NATIVE_DLL_SEARCH_DIRECTORIES");
    assert_eq!(bag.keys[4], "AppDomainCompatSwitch");
    assert_eq!(bag.values[0], "a.dll;b.dll");
    assert_eq!(bag.values[1], "C:\\app");
    assert_eq!(bag.values[2], "C:\\app");
    assert_eq!(bag.values[3], "C:\\native");
    assert_eq!(bag.values[4], "UseLatestBehaviorWhenTFMNotSpecified");
}

#[test]
fn property_bag_rejects_embedded_null() {
    let err = PropertyBag::build("bad\0path", "a", "b", "c").unwrap_err();
    assert!(matches!(err, IronCoreError::EncodingError));
    let err = PropertyBag::build("ok", "a", "b", "c\0").unwrap_err();
    assert!(matches!(err, IronCoreError::EncodingError));
}

#[test]
fn dll_extension_filter() {
    assert!(is_dll_file("C:\\rt\\a.dll", '\\'));
    assert!(is_dll_file("a.dll", '\\'));
    assert!(is_dll_file("/rt/lib.x.dll", '/'));
    assert!(!is_dll_file("C:\\rt\\notes.txt", '\\'));
    assert!(!is_dll_file("C:\\rt\\.dll", '\\'));
    assert!(!is_dll_file("C:\\rt\\a.DLL", '\\'));
    assert!(!is_dll_file("dll", '\\'));
    assert!(!is_dll_file("", '\\'));
    // The name is taken after the last separator only.
    assert!(!is_dll_file("C:\\a.dll\\readme", '\\'));
}

#[test]
fn trusted_assemblies_joins_dll_paths_in_order() {
    let entries = vec![
        "C:\\rt\\a.dll".to_string(),
        "C:\\rt\\notes.txt".to_string(),
        "C:\\rt\\b.dll".to_string(),
        "C:\\rt\\.dll".to_string(),
    ];
    assert_eq!(get_trusted_assemblies(&entries, '\\'), "C:\\rt\\a.dll;C:\\rt\\b.dll");
}

#[test]
fn trusted_assemblies_of_empty_directory_is_empty() {
    let entries: Vec<String> = Vec::new();
    assert_eq!(get_trusted_assemblies(&entries, '\\'), "");
    let no_dlls = vec!["C:\\rt\\a.txt".to_string()];
    assert_eq!(get_trusted_assemblies(&no_dlls, '\\'), "");
}

#[test]
fn trusted_assemblies_single_entry_has_no_separator() {
    let entries = vec!["/rt/only.dll".to_string()];
    assert_eq!(get_trusted_assemblies(&entries, '/'), "/rt/only.dll");
}

#[test]
fn runtime_dir_follows_the_fixed_convention() {
    assert_eq!(
        get_runtime_dir("C:\\Program Files", '\\'),
        "C:\\Program Files\\dotnet\\shared\\Microsoft.NETCore.App\\2.0.6"
    );
}

#[test]
fn runtime_path_names_the_library_inside_the_dir() {
    assert_eq!(
        get_runtime_path("C:\\Program Files", '\\'),
        "C:\\Program Files\\dotnet\\shared\\Microsoft.NETCore.App\\2.0.6\\CoreCLR.dll"
    );
}

#[test]
fn new_fails_on_missing_symbol_without_initialize() {
    let mut symbols = all_symbols();
    symbols.execute_assembly = false;
    let err = CoreClrInstance::new(&symbols, "C:\\host.exe", "a.dll", "p", "p", "p").unwrap_err();
    match err {
        IronCoreError::SymbolNotFound(name) => assert_eq!(name, "coreclr_execute_assembly"),
        other => panic!("expected SymbolNotFound, got {:?}", other),
    }
}

#[test]
fn new_reports_the_first_missing_symbol() {
    let symbols = SymbolReport {
        initialize: false,
        execute_assembly: false,
        create_delegate: true,
        shutdown: false,
    };
    let err = CoreClrInstance::new(&symbols, "C:\\host.exe", "a.dll", "p", "p", "p").unwrap_err();
    match err {
        IronCoreError::SymbolNotFound(name) => assert_eq!(name, "coreclr_initialize"),
        other => panic!("expected SymbolNotFound, got {:?}", other),
    }
}

#[test]
fn new_rejects_embedded_null_in_host_path() {
    let err =
        CoreClrInstance::new(&all_symbols(), "C:\\ho\0st.exe", "a.dll", "p", "p", "p").unwrap_err();
    assert!(matches!(err, IronCoreError::EncodingError));
}

#[test]
fn new_builds_the_initialize_request() {
    let req = CoreClrInstance::new(
        &all_symbols(),
        "C:\\host.exe",
        "C:\\rt\\a.dll;C:\\rt\\b.dll",
        "C:\\app",
        "C:\\app",
        "C:\\app",
    )
    .unwrap();
    assert_eq!(req.exe_path, "C:\\host.exe");
    assert_eq!(req.app_domain_friendly_name, "IronCore CLR Host");
    assert_eq!(req.properties.keys.len(), 5);
    assert_eq!(req.properties.values[0], "C:\\rt\\a.dll;C:\\rt\\b.dll");
}

#[test]
fn initialize_reply_failure_leaves_no_session() {
    let req =
        CoreClrInstance::new(&all_symbols(), "C:\\host.exe", "a.dll", "p", "p", "p").unwrap();
    let err = req.complete(0x8007_0002, 0, 0).unwrap_err();
    assert!(matches!(err, IronCoreError::StatusError(HRESULT::FileNotFound)));
}

#[test]
fn mock_initialize_and_execute_scenario() {
    // The mock initialize entry point returns code 0, handle 0x1, domain 0.
    let req =
        CoreClrInstance::new(&all_symbols(), "C:\\host.exe", "a.dll", "p", "p", "p").unwrap();
    let session = req.complete(0, 0x1, 0).unwrap();
    assert_eq!(session.state(), SessionState::Initialized);

    let exec = session
        .execute_assembly("App.dll", vec!["--flag".to_string()])
        .unwrap();
    // The mock execute entry point records the arguments it was given...
    assert_eq!(exec.host_handle, CoreClrHostHandle::Token(0x1));
    assert_eq!(exec.domain_id, 0);
    assert_eq!(exec.assembly_path, "App.dll");
    let recorded_argv: Vec<String> = exec.args.clone();
    assert_eq!(recorded_argv, vec!["--flag".to_string()]);
    // ...and returns exit code 42.
    assert_eq!(exec.complete(0, 42).unwrap(), 42);
}

#[test]
fn execute_assembly_rejects_embedded_nulls() {
    let req =
        CoreClrInstance::new(&all_symbols(), "C:\\host.exe", "a.dll", "p", "p", "p").unwrap();
    let session = req.complete(0, 0x1, 0).unwrap();
    let err = session.execute_assembly("App\0.dll", Vec::new()).unwrap_err();
    assert!(matches!(err, IronCoreError::EncodingError));
    let err = session
        .execute_assembly("App.dll", vec!["ok".to_string(), "ba\0d".to_string()])
        .unwrap_err();
    assert!(matches!(err, IronCoreError::EncodingError));
}

#[test]
fn execute_reply_failure_is_a_status_error() {
    let req =
        CoreClrInstance::new(&all_symbols(), "C:\\host.exe", "a.dll", "p", "p", "p").unwrap();
    let session = req.complete(0, 0x1, 0).unwrap();
    let exec = session.execute_assembly("App.dll", Vec::new()).unwrap();
    let err = exec.complete(0x8013_1524, 0).unwrap_err();
    assert!(matches!(err, IronCoreError::StatusError(HRESULT::DllNotFound)));
}

#[test]
fn create_delegate_resolves_coordinates() {
    let req =
        CoreClrInstance::new(&all_symbols(), "C:\\host.exe", "a.dll", "p", "p", "p").unwrap();
    let session = req.complete(0, 0x2, 7).unwrap();
    let del = session
        .create_delegate("ironcore-example", "IronCore.Example.Scripts", "Main")
        .unwrap();
    assert_eq!(del.host_handle, CoreClrHostHandle::Token(0x2));
    assert_eq!(del.domain_id, 7);
    assert_eq!(del.assembly_name, "ironcore-example");
    assert_eq!(del.entry_point_type_name, "IronCore.Example.Scripts");
    assert_eq!(del.method_name, "Main");
    let ptr = del.complete(0, 0xBEEF).unwrap();
    assert_eq!(ptr, CoreClrDelegatePointer { address: 0xBEEF });
}

#[test]
fn create_delegate_rejects_embedded_nulls_and_failing_status() {
    let req =
        CoreClrInstance::new(&all_symbols(), "C:\\host.exe", "a.dll", "p", "p", "p").unwrap();
    let session = req.complete(0, 0x2, 7).unwrap();
    let err = session.create_delegate("a", "b\0", "c").unwrap_err();
    assert!(matches!(err, IronCoreError::EncodingError));
    let del = session.create_delegate("a", "b", "c").unwrap();
    let err = del.complete(0x8013_1522, 0).unwrap_err();
    assert!(matches!(err, IronCoreError::StatusError(HRESULT::TypeLoadFailure)));
}

#[test]
fn shutdown_fires_exactly_once() {
    let req =
        CoreClrInstance::new(&all_symbols(), "C:\\host.exe", "a.dll", "p", "p", "p").unwrap();
    let mut session = req.complete(0, 0x1, 3).unwrap();

    // Use the session a few times, successfully or not: the shutdown
    // behaviour must not depend on it.
    let _ = session.execute_assembly("App.dll", Vec::new()).unwrap();
    let _ = session.execute_assembly("App\0.dll", Vec::new()).unwrap_err();
    let _ = session.create_delegate("a", "b", "c").unwrap();

    let fired = session.shutdown();
    let req = fired.expect("first shutdown must fire");
    assert_eq!(req.host_handle, CoreClrHostHandle::Token(0x1));
    assert_eq!(req.domain_id, 3);
    assert_eq!(session.state(), SessionState::ShutDown);

    assert!(session.shutdown().is_none());
    assert!(session.shutdown().is_none());
    assert_eq!(session.state(), SessionState::ShutDown);
}
