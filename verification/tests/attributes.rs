use hf::windows::FILE_ATTRIBUTE_HIDDEN;
use hf::{Change, Error, ErrorKind};

const FILE_ATTRIBUTE_READONLY: u32 = 0x1;
const FILE_ATTRIBUTE_DIRECTORY: u32 = 0x10;
const FILE_ATTRIBUTE_ARCHIVE: u32 = 0x20;

/// What the query for the attribute word returns for a file that does not
/// exist.
fn not_found() -> Result<u32, Error> {
    Err(Error::new(ErrorKind::NotFound))
}

/// Attribute words with the hidden bit and without it, and with other bits
/// around it.
const WORDS: [u32; 10] = [
    0,
    1,
    2,
    3,
    0x10,
    0x20,
    0x22,
    0x7FFF_FFFD,
    0x8000_0002,
    u32::MAX,
];

#[test]
fn hidden_bit_is_two() {
    assert_eq!(FILE_ATTRIBUTE_HIDDEN, 2);
}

#[test]
fn is_hidden_tests_the_second_bit() {
    for word in WORDS {
        assert_eq!(hf::windows::is_hidden(Ok(word)).unwrap(), (word >> 1) % 2 == 1);
    }
}

#[test]
fn hide_sets_and_show_clears_the_second_bit() {
    for word in WORDS {
        assert_eq!(
            hf::windows::hide_path("foo.txt", Ok(word)).unwrap(),
            Change::SetAttributes {
                path: "foo.txt".to_string(),
                attributes: word | 0x2,
            }
        );
        assert_eq!(
            hf::windows::show("foo.txt", Ok(word)).unwrap(),
            Change::SetAttributes {
                path: "foo.txt".to_string(),
                attributes: word & 0xFFFF_FFFD,
            }
        );
    }
}

#[test]
fn hide_then_show_restores_visible_word() {
    for word in WORDS {
        let hidden = match hf::windows::hide_path("foo.txt", Ok(word)).unwrap() {
            Change::SetAttributes { attributes, .. } => attributes,
            Change::Rename { .. } => panic!("not a change that Windows asks for"),
        };
        let shown = match hf::windows::show("foo.txt", Ok(hidden)).unwrap() {
            Change::SetAttributes { attributes, .. } => attributes,
            Change::Rename { .. } => panic!("not a change that Windows asks for"),
        };
        assert_eq!(shown, word & !2);
        if hf::windows::is_hidden(Ok(word)).unwrap() {
            assert_eq!(hidden, word);
        } else {
            assert_eq!(shown, word);
        }
    }
}

#[test]
fn windows_is_hidden() {
    assert!(hf::windows::is_hidden(Ok(FILE_ATTRIBUTE_HIDDEN)).unwrap());
    assert!(hf::windows::is_hidden(Ok(FILE_ATTRIBUTE_ARCHIVE | FILE_ATTRIBUTE_HIDDEN)).unwrap());
    assert!(hf::windows::is_hidden(Ok(FILE_ATTRIBUTE_DIRECTORY | FILE_ATTRIBUTE_HIDDEN)).unwrap());
    assert!(hf::windows::is_hidden(Ok(u32::MAX)).unwrap());
}

#[test]
fn windows_is_hidden_when_non_hidden_file() {
    assert!(!hf::windows::is_hidden(Ok(0)).unwrap());
    assert!(!hf::windows::is_hidden(Ok(FILE_ATTRIBUTE_ARCHIVE)).unwrap());
    assert!(!hf::windows::is_hidden(Ok(FILE_ATTRIBUTE_READONLY | FILE_ATTRIBUTE_DIRECTORY)).unwrap());
    assert!(!hf::windows::is_hidden(Ok(!FILE_ATTRIBUTE_HIDDEN)).unwrap());
}

#[test]
fn is_hidden_when_file_does_not_exist() {
    assert_eq!(
        hf::windows::is_hidden(not_found()).unwrap_err().kind(),
        ErrorKind::NotFound
    );
    assert_eq!(
        hf::windows::is_hidden(Err(Error::new(ErrorKind::PermissionDenied)))
            .unwrap_err()
            .kind(),
        ErrorKind::PermissionDenied
    );
}

#[test]
fn windows_hide() {
    assert_eq!(
        hf::windows::hide_path("foo.txt", Ok(FILE_ATTRIBUTE_ARCHIVE)).unwrap(),
        Change::SetAttributes {
            path: "foo.txt".to_string(),
            attributes: 0x22,
        }
    );
    assert_eq!(
        hf::windows::hide_path("\u{30D5}\u{30A1}\u{30A4}\u{30EB}.txt", Ok(0)).unwrap(),
        Change::SetAttributes {
            path: "\u{30D5}\u{30A1}\u{30A4}\u{30EB}.txt".to_string(),
            attributes: 0x2,
        }
    );
}

#[test]
fn windows_hide_when_hidden_file() {
    assert_eq!(
        hf::windows::hide_path("foo.txt", Ok(0x22)).unwrap(),
        Change::SetAttributes {
            path: "foo.txt".to_string(),
            attributes: 0x22,
        }
    );
}

#[test]
fn windows_hide_when_file_does_not_exist() {
    assert_eq!(
        hf::windows::hide_path("foo.txt", not_found())
            .unwrap_err()
            .kind(),
        ErrorKind::NotFound
    );
}

#[test]
fn windows_hide_with_nul_in_path() {
    assert_eq!(
        hf::windows::hide_path("foo\0.txt", Ok(FILE_ATTRIBUTE_ARCHIVE))
            .unwrap_err()
            .kind(),
        ErrorKind::Other
    );
    assert_eq!(
        hf::windows::hide_path("foo\0.txt", not_found())
            .unwrap_err()
            .kind(),
        ErrorKind::NotFound
    );
}

#[test]
fn windows_show() {
    assert_eq!(
        hf::windows::show("foo.txt", Ok(0x22)).unwrap(),
        Change::SetAttributes {
            path: "foo.txt".to_string(),
            attributes: 0x20,
        }
    );
    assert_eq!(
        hf::windows::show("\u{30D5}\u{30A1}\u{30A4}\u{30EB}.txt", Ok(u32::MAX)).unwrap(),
        Change::SetAttributes {
            path: "\u{30D5}\u{30A1}\u{30A4}\u{30EB}.txt".to_string(),
            attributes: 0xFFFF_FFFD,
        }
    );
}

#[test]
fn windows_show_when_non_hidden_file() {
    assert_eq!(
        hf::windows::show("foo.txt", Ok(0x20)).unwrap(),
        Change::SetAttributes {
            path: "foo.txt".to_string(),
            attributes: 0x20,
        }
    );
}

#[test]
fn windows_show_when_file_does_not_exist() {
    assert_eq!(
        hf::windows::show("foo.txt", not_found()).unwrap_err().kind(),
        ErrorKind::NotFound
    );
}

#[test]
fn windows_show_with_nul_in_path() {
    assert_eq!(
        hf::windows::show("\0", Ok(0x2)).unwrap_err().kind(),
        ErrorKind::Other
    );
}

#[test]
fn windows_hide_then_is_hidden() {
    for word in WORDS {
        match hf::windows::hide_path("foo.txt", Ok(word)).unwrap() {
            Change::SetAttributes { path, attributes } => {
                assert_eq!(path, "foo.txt");
                assert!(hf::windows::is_hidden(Ok(attributes)).unwrap());
                assert_eq!(attributes & !2, word & !2);
            }
            Change::Rename { .. } => panic!("not a change that Windows asks for"),
        }
    }
}

#[test]
fn windows_show_then_is_hidden() {
    for word in WORDS {
        match hf::windows::show("foo.txt", Ok(word)).unwrap() {
            Change::SetAttributes { path, attributes } => {
                assert_eq!(path, "foo.txt");
                assert!(!hf::windows::is_hidden(Ok(attributes)).unwrap());
                assert_eq!(attributes & !2, word & !2);
            }
            Change::Rename { .. } => panic!("not a change that Windows asks for"),
        }
    }
}

#[test]
fn windows_test_is_hidden() {
    assert!(hf::windows::is_hidden(Ok(FILE_ATTRIBUTE_ARCHIVE | FILE_ATTRIBUTE_HIDDEN)).unwrap());
}

#[test]
fn windows_test_is_not_hidden() {
    assert!(!hf::windows::is_hidden(Ok(FILE_ATTRIBUTE_ARCHIVE)).unwrap());
}

#[test]
fn windows_test_is_hidden_when_file_does_not_exist() {
    assert!(hf::windows::is_hidden(not_found()).is_err());
}

#[test]
fn windows_test_hide() {
    let change = hf::windows::hide_path("file", Ok(FILE_ATTRIBUTE_ARCHIVE)).unwrap();
    match change {
        Change::SetAttributes { attributes, .. } => {
            assert!(hf::windows::is_hidden(Ok(attributes)).unwrap());
        }
        Change::Rename { .. } => panic!("not a change that Windows asks for"),
    }
}

#[test]
fn windows_test_show() {
    let change = hf::windows::show("file", Ok(FILE_ATTRIBUTE_ARCHIVE | FILE_ATTRIBUTE_HIDDEN));
    match change.unwrap() {
        Change::SetAttributes { attributes, .. } => {
            assert!(!hf::windows::is_hidden(Ok(attributes)).unwrap());
        }
        Change::Rename { .. } => panic!("not a change that Windows asks for"),
    }
}
