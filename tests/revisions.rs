use redeployer::revision::{revision_from_output, same_revision};

#[test]
fn output_is_trimmed() {
    let out = b"  3f2a9c\n".to_vec();
    assert_eq!(revision_from_output(true, &out), Some(b"3f2a9c".to_vec()));
}

#[test]
fn failed_tool_gives_no_revision() {
    assert_eq!(revision_from_output(false, &b"3f2a9c\n".to_vec()), None);
}

#[test]
fn blank_output_gives_no_revision() {
    assert_eq!(revision_from_output(true, &b" \r\n\t".to_vec()), None);
    assert_eq!(revision_from_output(true, &Vec::new()), None);
}

#[test]
fn inner_whitespace_is_kept() {
    assert_eq!(revision_from_output(true, &b"\tab cd \n".to_vec()), Some(b"ab cd".to_vec()));
}

#[test]
fn revisions_compare_by_bytes() {
    assert!(same_revision(&b"abc".to_vec(), &b"abc".to_vec()));
    assert!(!same_revision(&b"abc".to_vec(), &b"abd".to_vec()));
    assert!(!same_revision(&b"abc".to_vec(), &b"ab".to_vec()));
    assert!(same_revision(&Vec::new(), &Vec::new()));
}
