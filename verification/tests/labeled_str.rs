use error_annotation::Render;
use error_annotation::annotate;
use error_annotation::ErrorAnnotation;

fn is_banana(input: &str) -> Result<(), String> {
    if input == "banana" {
        Ok(())
    } else {
        Err(format!(r#"Input {:?} != "banana""#, input))
    }
}

#[test]
fn within_ok() {
    let s = "banana";
    let r = is_banana(s).map_err(annotate("fruit", || s));
    assert!(r.is_ok());
}

#[test]
fn within_err() {
    let s = "apple";
    let r = is_banana(s).map_err(annotate("fruit", || s));
    let ErrorAnnotation {
        info,
        label,
        source,
    } = r.err().unwrap();
    assert_eq!(source, r#"Input "apple" != "banana""#);
    assert_eq!(label, "fruit");
    assert_eq!(info, "apple");
}

#[test]
fn display() {
    let e = ErrorAnnotation {
        source: 42u64,
        label: "thingy",
        info: "woot",
    };
    assert_eq!(e.render(), "42\n-with thingy: woot");
}
