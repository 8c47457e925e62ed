use forgekit::error::ForgeKitError;
use forgekit::temp::{create_temp_file, create_temp_file_near};

#[test]
fn temp_file_in_temp_dir() {
    assert_eq!(create_temp_file("/tmp", "abc-123", "extract", ".pdf").unwrap(), "/tmp/extract-abc-123.pdf");
}

#[test]
fn temp_file_beside_target() {
    assert_eq!(
        create_temp_file_near("/home/user/output.pdf", "u1", "forgekit", ".tmp").unwrap(),
        "/home/user/forgekit-u1.tmp"
    );
    assert_eq!(create_temp_file_near("output.pdf", "u1", "forgekit", ".tmp").unwrap(), "forgekit-u1.tmp");
}

#[test]
fn temp_file_needs_a_parent() {
    for path in ["", "/"] {
        match create_temp_file_near(path, "u1", "forgekit", ".tmp") {
            Err(ForgeKitError::InvalidInput { path: p, reason }) => {
                assert_eq!(p, path);
                assert_eq!(reason, "Path has no parent directory");
            }
            other => panic!("unexpected {:?}", other),
        }
    }
}
