use mercy::errors::MercyError;
use mercy::{mercy_hex, mercy_hex_plan, FileData};

#[test]
fn hex_plan_names_the_file_need() {
    assert!(mercy_hex_plan("hex_dump"));
    assert!(!mercy_hex_plan("octal_dump"));
}

#[test]
fn hex_dump_missing_file_is_not_found() {
    assert_eq!(mercy_hex("hex_dump", &FileData::Missing), Err(MercyError::NotFound));
}

#[test]
fn hex_dump_renders_rows() {
    let dump = mercy_hex("hex_dump", &FileData::Loaded(b"AB".to_vec())).unwrap();
    let lines: Vec<&str> = dump.lines().collect();
    assert_eq!(lines.len(), 2);
    assert!(lines[0].contains("4142"));
    assert!(lines[0].contains("AB"));
    assert!(lines[1].contains("00000002"));
    assert!(dump.ends_with('\n'));
}

#[test]
fn hex_dump_of_empty_bytes_is_one_summary_row() {
    let dump = mercy_hex("hex_dump", &FileData::Loaded(Vec::new())).unwrap();
    let lines: Vec<&str> = dump.lines().collect();
    assert_eq!(lines.len(), 1);
    assert!(lines[0].contains("00000000"));
}

#[test]
fn hex_dump_rejects_unknown_call() {
    assert_eq!(
        mercy_hex("octal_dump", &FileData::Loaded(Vec::new())),
        Err(MercyError::UnsupportedOperation)
    );
}
