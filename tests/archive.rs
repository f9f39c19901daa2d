use std::io::Write;
use wordforge_desktop::archive::{extraction_plan, plan_archive, ArchiveEntry, ExtractStep};

fn sample_zip() -> Vec<u8> {
    let mut writer = zip::ZipWriter::new(std::io::Cursor::new(Vec::new()));
    let options = zip::write::SimpleFileOptions::default()
        .compression_method(zip::CompressionMethod::Stored)
        .unix_permissions(0o755);
    writer.add_directory("mcp/", options).unwrap();
    writer.start_file("mcp/server.js", options).unwrap();
    writer.write_all(b"console.log(1)").unwrap();
    writer.start_file("opencode.json", options).unwrap();
    writer.write_all(b"{}").unwrap();
    writer.finish().unwrap().into_inner()
}

#[test]
fn plan_archive_writes_members_in_order() {
    let steps = plan_archive(&sample_zip(), false).unwrap();
    assert_eq!(
        steps,
        vec![
            ExtractStep::CreateDir("mcp/".to_string()),
            ExtractStep::WriteFile("mcp/server.js".to_string(), b"console.log(1)".to_vec()),
            ExtractStep::WriteFile("opencode.json".to_string(), b"{}".to_vec()),
        ]
    );
}

#[test]
fn plan_archive_keeps_modes_when_asked() {
    let steps = plan_archive(&sample_zip(), true).unwrap();
    assert_eq!(steps.len(), 6);
    match &steps[3] {
        ExtractStep::SetMode(name, mode) => {
            assert_eq!(name, "mcp/server.js");
            assert_eq!(mode & 0o777, 0o755);
        }
        other => panic!("unexpected step {other:?}"),
    }
}

#[test]
fn plan_archive_rejects_garbage() {
    assert!(plan_archive(b"not a zip archive", true).is_err());
    assert!(plan_archive(b"", false).is_err());
}

#[test]
fn extraction_plan_of_entries() {
    let entries = vec![
        ArchiveEntry { name: "d/".to_string(), data: vec![], unix_mode: Some(0o40755) },
        ArchiveEntry { name: "d/f".to_string(), data: vec![1, 2], unix_mode: None },
    ];
    assert_eq!(
        extraction_plan(entries, true),
        vec![
            ExtractStep::CreateDir("d/".to_string()),
            ExtractStep::SetMode("d/".to_string(), 0o40755),
            ExtractStep::WriteFile("d/f".to_string(), vec![1, 2]),
        ]
    );
    assert!(extraction_plan(vec![], true).is_empty());
}
