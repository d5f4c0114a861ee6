use remote_session::text::{copy_bytes, trim_bytes};

#[test]
fn trim_removes_both_ends() {
    assert_eq!(trim_bytes(&b"  hello\n".to_vec()), b"hello".to_vec());
    assert_eq!(trim_bytes(&b"\t\r\nx y\x0b\x0c".to_vec()), b"x y".to_vec());
}

#[test]
fn trim_keeps_interior_whitespace() {
    assert_eq!(trim_bytes(&b"a  b".to_vec()), b"a  b".to_vec());
}

#[test]
fn trim_of_blank_is_empty() {
    assert_eq!(trim_bytes(&b"".to_vec()), b"".to_vec());
    assert_eq!(trim_bytes(&b" \n\t\r".to_vec()), b"".to_vec());
}

#[test]
fn trim_without_whitespace_is_identity() {
    assert_eq!(trim_bytes(&b"abc".to_vec()), b"abc".to_vec());
}

#[test]
fn copy_is_equal() {
    let v = b"copy me".to_vec();
    assert_eq!(copy_bytes(&v), v);
}
