use std::path::PathBuf;

use osprey_svc::paths::{data_dir_from, windows_data_dir, DataLayout};

#[test]
fn layout_places_every_artefact_under_one_root() {
    let layout = DataLayout::under(PathBuf::from("/var/osprey"));
    assert_eq!(layout.keys, PathBuf::from("/var/osprey/keys"));
    assert_eq!(layout.audit, PathBuf::from("/var/osprey/audit"));
    assert_eq!(layout.logs, PathBuf::from("/var/osprey/logs"));
    assert_eq!(layout.state, PathBuf::from("/var/osprey/state.json"));
}

#[test]
fn diagnostics_never_share_a_directory_with_the_audit_record() {
    let layout = DataLayout::under(PathBuf::from("/var/osprey"));
    assert_ne!(layout.logs, layout.audit);
}

#[test]
fn the_data_directory_prefers_the_explicit_override() {
    assert_eq!(
        data_dir_from(Some(PathBuf::from("/x")), Some(PathBuf::from("/s")), Some(PathBuf::from("/h"))),
        Some(PathBuf::from("/x"))
    );
    assert_eq!(
        data_dir_from(None, Some(PathBuf::from("/s")), Some(PathBuf::from("/h"))),
        Some(PathBuf::from("/s/osprey"))
    );
    assert_eq!(
        data_dir_from(None, None, Some(PathBuf::from("/h"))),
        Some(PathBuf::from("/h/.local/state/osprey"))
    );
    assert_eq!(data_dir_from(None, None, None), None);
    assert_eq!(windows_data_dir(Some(PathBuf::from("/pd"))), Some(PathBuf::from("/pd/Osprey")));
    assert_eq!(windows_data_dir(None), None);
}
