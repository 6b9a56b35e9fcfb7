use hf::{hide_path, is_hidden, show, Change, Error, ErrorKind, Target};

#[test]
fn is_hidden_on_unix() {
    assert!(is_hidden(&Target::Unix { path: ".foo.txt" }).unwrap());
    assert!(!is_hidden(&Target::Unix { path: "foo.txt" }).unwrap());
    assert_eq!(
        is_hidden(&Target::Unix { path: "/" }).unwrap_err().kind(),
        ErrorKind::InvalidInput
    );
}

#[test]
fn is_hidden_on_windows() {
    let hidden = Target::Windows {
        path: "foo.txt",
        attributes: Ok(0x22),
    };
    let visible = Target::Windows {
        path: ".foo.txt",
        attributes: Ok(0x20),
    };
    let missing = Target::Windows {
        path: "foo.txt",
        attributes: Err(Error::new(ErrorKind::NotFound)),
    };
    assert!(is_hidden(&hidden).unwrap());
    assert!(!is_hidden(&visible).unwrap());
    assert_eq!(is_hidden(&missing).unwrap_err().kind(), ErrorKind::NotFound);
}

#[test]
fn hide_path_on_unix() {
    assert_eq!(
        hide_path(&Target::Unix { path: "foo.txt" }).unwrap(),
        Change::Rename {
            from: "foo.txt".to_string(),
            to: ".foo.txt".to_string(),
        }
    );
    assert_eq!(
        hide_path(&Target::Unix { path: ".foo.txt" })
            .unwrap_err()
            .kind(),
        ErrorKind::InvalidInput
    );
}

#[test]
fn hide_path_on_windows() {
    let visible = Target::Windows {
        path: ".foo.txt",
        attributes: Ok(0x20),
    };
    let hidden = Target::Windows {
        path: "foo.txt",
        attributes: Ok(0x22),
    };
    assert_eq!(
        hide_path(&visible).unwrap(),
        Change::SetAttributes {
            path: ".foo.txt".to_string(),
            attributes: 0x22,
        }
    );
    assert_eq!(
        hide_path(&hidden).unwrap(),
        Change::SetAttributes {
            path: "foo.txt".to_string(),
            attributes: 0x22,
        }
    );
}

#[test]
fn show_on_unix() {
    assert_eq!(
        show(&Target::Unix { path: "..foo.txt" }).unwrap(),
        Change::Rename {
            from: "..foo.txt".to_string(),
            to: "foo.txt".to_string(),
        }
    );
    assert_eq!(
        show(&Target::Unix { path: "foo.txt" }).unwrap_err().kind(),
        ErrorKind::InvalidInput
    );
}

#[test]
fn show_on_windows() {
    let hidden = Target::Windows {
        path: "foo.txt",
        attributes: Ok(0x22),
    };
    let denied = Target::Windows {
        path: "foo.txt",
        attributes: Err(Error::new(ErrorKind::PermissionDenied)),
    };
    assert_eq!(
        show(&hidden).unwrap(),
        Change::SetAttributes {
            path: "foo.txt".to_string(),
            attributes: 0x20,
        }
    );
    assert_eq!(
        show(&denied).unwrap_err().kind(),
        ErrorKind::PermissionDenied
    );
}

#[test]
fn error_keeps_its_kind() {
    for kind in [
        ErrorKind::NotFound,
        ErrorKind::PermissionDenied,
        ErrorKind::InvalidInput,
        ErrorKind::Other,
    ] {
        assert_eq!(Error::new(kind).kind(), kind);
    }
}
