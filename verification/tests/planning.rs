use vendorpack::archive::{archive_extension, archive_file_name, compress, join_path, Compression};
use vendorpack::command::{update_args, vendor_args};

#[test]
fn archive_name_matches_selector() {
    assert_eq!(archive_extension(&Compression::Gz), "tar.gz");
    assert_eq!(archive_extension(&Compression::Xz), "tar.xz");
    assert_eq!(archive_extension(&Compression::Zst), "tar.zst");
    assert_eq!(archive_file_name(&Compression::Gz), "vendor.tar.gz");
    assert_eq!(archive_file_name(&Compression::Xz), "vendor.tar.xz");
    assert_eq!(archive_file_name(&Compression::Zst), "vendor.tar.zst");
}

#[test]
fn join_path_handles_separators() {
    assert_eq!(join_path("", "vendor.tar.gz"), "vendor.tar.gz");
    assert_eq!(join_path("out", "vendor.tar.gz"), "out/vendor.tar.gz");
    assert_eq!(join_path("out/", "vendor.tar.gz"), "out/vendor.tar.gz");
}

#[test]
fn compress_plans_path_per_selector() {
    let members = vec!["vendor".to_string(), "Cargo.lock".to_string()];
    let gz = compress("out", "prj", members.clone(), &Compression::Gz, false);
    assert_eq!(gz.archive_path, "out/vendor.tar.gz");
    let xz = compress("out", "prj", members.clone(), &Compression::Xz, false);
    assert_eq!(xz.archive_path, "out/vendor.tar.xz");
    let zst = compress("out", "prj", members, &Compression::Zst, false);
    assert_eq!(zst.archive_path, "out/vendor.tar.zst");
}

#[test]
fn compress_keeps_inputs_in_plan() {
    let members = vec!["vendor".to_string(), "Cargo.lock".to_string()];
    let plan = compress("output", "project", members.clone(), &Compression::Gz, false);
    assert_eq!(plan.base_dir, "project");
    assert_eq!(plan.members, members);
    assert_eq!(plan.compression, Compression::Gz);
    assert!(!plan.replace_existing);
}

#[test]
fn compress_replaces_existing_archive() {
    let first = compress("out", "prj", vec!["vendor".to_string()], &Compression::Zst, false);
    let again = compress(
        "out",
        "prj",
        vec!["vendor".to_string(), "Cargo.lock".to_string()],
        &Compression::Zst,
        true,
    );
    assert!(again.replace_existing);
    assert_eq!(again.archive_path, first.archive_path);
    assert_eq!(
        again.members,
        vec!["vendor".to_string(), "Cargo.lock".to_string()]
    );
}

#[test]
fn update_args_exact() {
    assert_eq!(
        update_args("Cargo.toml"),
        vec![
            "-vv".to_string(),
            "--manifest-path".to_string(),
            "Cargo.toml".to_string()
        ]
    );
}

#[test]
fn vendor_args_without_extras() {
    assert_eq!(
        vendor_args("Cargo.toml", &Vec::new()),
        vec![
            "-vv".to_string(),
            "--manifest-path".to_string(),
            "Cargo.toml".to_string()
        ]
    );
}

#[test]
fn vendor_args_sync_pairs_in_order() {
    let extras = vec!["a/Cargo.toml".to_string(), "b/Cargo.toml".to_string()];
    assert_eq!(
        vendor_args("Cargo.toml", &extras),
        vec![
            "-vv".to_string(),
            "--manifest-path".to_string(),
            "Cargo.toml".to_string(),
            "--sync".to_string(),
            "a/Cargo.toml".to_string(),
            "--sync".to_string(),
            "b/Cargo.toml".to_string()
        ]
    );
}
