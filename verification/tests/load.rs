use std::path::{Path, PathBuf};

use tdjson_runtime::{LibraryPath, LoadPlan, ProcessBinding, TdJsonError};

fn path(text: &str) -> LibraryPath {
    LibraryPath::new(PathBuf::from(text))
}

#[test]
fn rejects_relative_library_paths_before_loading() {
    let process: ProcessBinding<(), u32> = ProcessBinding::new();
    let result = process.plan_load(LibraryPath::new(Path::new("libtdjson.so").to_path_buf()));

    assert!(matches!(
        result,
        Err(TdJsonError::RelativeLibraryPath { .. })
    ));
}

#[test]
fn relative_path_is_refused_in_every_state() {
    let mut process: ProcessBinding<(), u32> = ProcessBinding::new();
    assert!(process.record_library(path("/opt/tdjson/lib/libtdjson.so"), (), 7));
    let result = process.plan_load(path("lib/libtdjson.so"));
    match result {
        Err(TdJsonError::RelativeLibraryPath { path }) => {
            assert_eq!(path.as_path_buf(), &PathBuf::from("lib/libtdjson.so"));
        }
        _ => panic!("a relative path must be refused"),
    }
    process.activate_owner();
    assert!(matches!(
        process.plan_load(path("libtdjson.so")),
        Err(TdJsonError::RelativeLibraryPath { .. })
    ));
}

#[test]
fn first_load_opens_the_requested_library() {
    let process: ProcessBinding<(), u32> = ProcessBinding::new();
    assert!(!process.is_bound());
    assert!(!process.owner_active());
    match process.plan_load(path("/opt/tdjson/lib/libtdjson.so")) {
        Ok(LoadPlan::OpenLibrary(p)) => {
            assert_eq!(p.into_path_buf(), PathBuf::from("/opt/tdjson/lib/libtdjson.so"));
        }
        _ => panic!("an unbound process must open the library"),
    }
}

#[test]
fn owner_lifecycle_binds_the_process_for_good() {
    let library = "/opt/tdjson/lib/libtdjson.so.1.8.67";
    let mut process: ProcessBinding<&str, u32> = ProcessBinding::new();

    // First load: open, record, activate.
    let opened = match process.plan_load(path(library)) {
        Ok(LoadPlan::OpenLibrary(p)) => p,
        _ => panic!("first load must open the library"),
    };
    assert!(process.record_library(opened, "handle", 41));
    assert!(!process.activate_owner());
    assert!(process.is_bound());
    assert!(process.owner_active());

    // A second owner is refused while the first is active, for the same path or another.
    assert!(matches!(
        process.plan_load(path(library)),
        Err(TdJsonError::OwnerAlreadyActive)
    ));
    assert!(matches!(
        process.plan_load(path("/opt/tdjson/lib/different-libtdjson")),
        Err(TdJsonError::OwnerAlreadyActive)
    ));

    // Dropping the owner releases access; the binding stays.
    process.release_owner();
    assert!(!process.owner_active());
    assert!(process.is_bound());

    // A different path is refused once bound.
    match process.plan_load(path("/opt/tdjson/lib/different-libtdjson")) {
        Err(TdJsonError::LibraryPathMismatch { loaded_path, requested_path }) => {
            assert_eq!(loaded_path.as_path_buf(), &PathBuf::from(library));
            assert_eq!(
                requested_path.as_path_buf(),
                &PathBuf::from("/opt/tdjson/lib/different-libtdjson")
            );
        }
        _ => panic!("a different path must be refused"),
    }

    // The resident library is reused with its symbols.
    assert!(matches!(
        process.plan_load(path(library)),
        Ok(LoadPlan::UseBound(41))
    ));
    assert!(!process.activate_owner());
    assert!(matches!(
        process.plan_load(path(library)),
        Err(TdJsonError::OwnerAlreadyActive)
    ));
}

#[test]
fn equal_paths_are_compared_by_components() {
    let mut process: ProcessBinding<(), u32> = ProcessBinding::new();
    assert!(process.record_library(path("/opt/tdjson/lib/libtdjson.so"), (), 3));
    // Path equality ignores repeated separators and a trailing separator.
    assert!(matches!(
        process.plan_load(path("/opt//tdjson/lib/libtdjson.so/")),
        Ok(LoadPlan::UseBound(3))
    ));
    assert!(matches!(
        process.plan_load(path("/opt/tdjson/lib/./libtdjson.so")),
        Ok(LoadPlan::UseBound(3))
    ));
    assert!(matches!(
        process.plan_load(path("/opt/tdjson/libtdjson.so")),
        Err(TdJsonError::LibraryPathMismatch { .. })
    ));
}

#[test]
fn library_path_keeps_its_encoding() {
    let p = path("/opt/tdjson/lib/libtdjson.so");
    assert_eq!(p.encoded(), b"/opt/tdjson/lib/libtdjson.so");
}

#[test]
fn library_path_check_precedes_the_process_state() {
    match tdjson_runtime::check_library_path(path("libtdjson.so")) {
        Err(TdJsonError::RelativeLibraryPath { path }) => {
            assert_eq!(path.into_path_buf(), PathBuf::from("libtdjson.so"));
        }
        _ => panic!("a relative path must be refused"),
    }
    let checked = tdjson_runtime::check_library_path(path("/opt/tdjson/lib/libtdjson.so"))
        .expect("an absolute path passes");
    assert_eq!(checked.as_path_buf(), &PathBuf::from("/opt/tdjson/lib/libtdjson.so"));
}

#[test]
fn records_only_an_absolute_path_into_an_unbound_process() {
    let mut process: ProcessBinding<(), u32> = ProcessBinding::new();
    assert!(!process.record_library(path("lib/libtdjson.so"), (), 1));
    assert!(!process.is_bound());
    assert!(process.record_library(path("/opt/tdjson/lib/libtdjson.so"), (), 2));
    assert!(!process.record_library(path("/opt/tdjson/lib/other.so"), (), 3));
    assert!(matches!(
        process.plan_load(path("/opt/tdjson/lib/libtdjson.so")),
        Ok(LoadPlan::UseBound(2))
    ));
}

#[test]
fn finish_load_records_and_activates_on_success() {
    let mut process: ProcessBinding<&str, u32> = ProcessBinding::new();
    let library = "/opt/tdjson/lib/libtdjson.so";
    let symbols = process
        .finish_load(path(library), Ok(("handle", 9)))
        .expect("an opened library is recorded");
    assert_eq!(symbols, 9);
    assert!(process.is_bound());
    assert!(process.owner_active());
    assert!(matches!(
        process.finish_load(path(library), Ok(("second", 10))),
        Err(TdJsonError::OwnerAlreadyActive)
    ));
    process.release_owner();
    assert!(matches!(
        process.plan_load(path(library)),
        Ok(LoadPlan::UseBound(9))
    ));
}

#[test]
fn finish_load_keeps_the_state_when_opening_failed() {
    let mut process: ProcessBinding<&str, u32> = ProcessBinding::new();
    let result = process.finish_load(
        path("/opt/tdjson/lib/libtdjson.so"),
        Err(TdJsonError::NullExecuteResponse),
    );
    assert!(matches!(result, Err(TdJsonError::NullExecuteResponse)));
    assert!(!process.is_bound());
    assert!(!process.owner_active());
    match process.plan_load(path("/opt/tdjson/lib/libtdjson.so")) {
        Ok(LoadPlan::OpenLibrary(_)) => {}
        _ => panic!("a failed open leaves the process unbound"),
    }
}

#[test]
fn library_path_encoding_is_the_path_bytes() {
    let p = path("/opt/tdjson/lib/libtdjson.so");
    assert_eq!(
        p.encoded(),
        PathBuf::from("/opt/tdjson/lib/libtdjson.so").as_os_str().as_encoded_bytes()
    );
}
