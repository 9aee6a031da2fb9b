use std::path::{Path, PathBuf};

use error_annotation::Render;
use error_annotation::annotate;
use error_annotation::ErrorAnnotation;

#[derive(Clone, Debug, Eq, PartialEq)]
struct PathBufDisp(PathBuf);

fn is_root(input: &Path) -> Result<(), String> {
    if let Some(parent) = input.parent() {
        Err(format!(
            "Input {:?} has parent {:?}",
            input.display(),
            parent.display()
        ))
    } else {
        Ok(())
    }
}

#[test]
fn path_within_ok() {
    let pbd = PathBufDisp(PathBuf::from("/"));
    let r = is_root(&pbd.0).map_err(annotate("path", || pbd.clone()));
    assert!(r.is_ok());
}

#[test]
fn path_within_err() {
    let pbd = PathBufDisp(PathBuf::from("/not/a/root/path"));
    let r = is_root(&pbd.0).map_err(annotate("path", || pbd.clone()));
    let ErrorAnnotation {
        info,
        label,
        source,
    } = r.err().unwrap();
    assert_eq!(
        source,
        r#"Input "/not/a/root/path" has parent "/not/a/root""#
    );
    assert_eq!(label, "path");
    assert_eq!(info, pbd);
}

#[test]
fn tests_display() {
    let e = ErrorAnnotation {
        source: 42u64,
        label: "path",
        info: String::from("/not/a/root/path"),
    };
    assert_eq!(e.render(), "42\n-with path: /not/a/root/path");
}
