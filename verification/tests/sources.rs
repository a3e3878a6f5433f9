use moon::fileops::read_file_into_cstring;
use moon::shaders::{contains_terminator, ShaderSource, SourceError};

#[test]
fn string_round_trip_is_byte_equal() {
    let a = ShaderSource::from_string(String::from("X")).unwrap();
    let b = ShaderSource::from_string(String::from("X")).unwrap();
    assert_eq!(a.as_bytes(), b.as_bytes());
    assert_eq!(a.as_bytes(), &vec![b'X']);
    assert!(!a.as_bytes().contains(&0));
    assert_eq!(a.len(), 1);
}

#[test]
fn source_keeps_its_text() {
    let text = "#version 330 core\nvoid main() {}\n";
    let s = ShaderSource::from_string(String::from(text)).unwrap();
    assert_eq!(s.as_bytes().as_slice(), text.as_bytes());
    assert_eq!(s.len(), text.len());
}

#[test]
fn source_keeps_text_beyond_ascii() {
    let text = "// größe\n";
    let s = ShaderSource::from_string(String::from(text)).unwrap();
    assert_eq!(s.as_bytes().as_slice(), text.as_bytes());
}

#[test]
fn empty_source_is_valid() {
    let s = ShaderSource::from_string(String::new()).unwrap();
    assert_eq!(s.len(), 0);
    let b = ShaderSource::from_bytes(Vec::new()).unwrap();
    assert_eq!(b.len(), 0);
}

#[test]
fn string_with_terminator_is_invalid() {
    let r = ShaderSource::from_string(String::from("void\0main"));
    assert!(matches!(r, Err(SourceError::InvalidSource)));
    let r = ShaderSource::from_string(String::from("\0"));
    assert!(matches!(r, Err(SourceError::InvalidSource)));
    let r = ShaderSource::from_string(String::from("end\0"));
    assert!(matches!(r, Err(SourceError::InvalidSource)));
}

#[test]
fn bytes_with_terminator_are_invalid() {
    let r = ShaderSource::from_bytes(vec![1, 2, 0, 3]);
    assert!(matches!(r, Err(SourceError::InvalidSource)));
}

#[test]
fn bytes_without_terminator_are_kept() {
    let s = ShaderSource::from_bytes(vec![1, 2, 255, 3]).unwrap();
    assert_eq!(s.as_bytes(), &vec![1, 2, 255, 3]);
}

#[test]
fn validated_bytes_are_wrapped_as_they_are() {
    let s = ShaderSource::from_byte_vec(vec![b'a', b'b']);
    assert_eq!(s.as_bytes(), &vec![b'a', b'b']);
    let again = ShaderSource::from_bytes(s.as_bytes().clone()).unwrap();
    assert_eq!(again.as_bytes(), s.as_bytes());
}

#[test]
fn unreadable_file_is_an_io_failure() {
    assert!(matches!(ShaderSource::from_file(None), Err(SourceError::IoError)));
    assert!(matches!(read_file_into_cstring(None), Err(SourceError::IoError)));
}

#[test]
fn file_contents_become_source() {
    let s = ShaderSource::from_file(Some(b"void main() {}".to_vec())).unwrap();
    assert_eq!(s.as_bytes().as_slice(), b"void main() {}");
    let t = read_file_into_cstring(Some(b"abc".to_vec())).unwrap();
    assert_eq!(t.as_bytes().as_slice(), b"abc");
}

#[test]
fn file_with_terminator_is_invalid() {
    let r = ShaderSource::from_file(Some(vec![b'a', 0, b'b']));
    assert!(matches!(r, Err(SourceError::InvalidSource)));
    let r = read_file_into_cstring(Some(vec![0]));
    assert!(matches!(r, Err(SourceError::InvalidSource)));
}

#[test]
fn terminator_is_found_wherever_it_stands() {
    assert!(!contains_terminator(&[]));
    assert!(!contains_terminator(&[1, 2, 3]));
    assert!(contains_terminator(&[0, 2, 3]));
    assert!(contains_terminator(&[1, 0, 3]));
    assert!(contains_terminator(&[1, 2, 0]));
}
