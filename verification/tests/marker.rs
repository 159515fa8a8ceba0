use sensitive_trait::NonSensitive;
use sensitive_trait::require_non_sensitive;

#[derive(PartialEq, Debug)]
struct PlainProfile {
    name: String,
    age: u32,
    tags: Vec<String>,
}

impl NonSensitive for PlainProfile {}

#[test]
fn plain_string_satisfies_marker() {
    let message = String::from("Hello, world!");
    let back = require_non_sensitive(message);
    assert_eq!(back, "Hello, world!");
}

#[test]
fn plain_scalars_satisfy_marker() {
    assert_eq!(require_non_sensitive(42u32), 42u32);
    assert_eq!(require_non_sensitive(true), true);
    assert_eq!(require_non_sensitive('x'), 'x');
}

#[test]
fn marked_composites_satisfy_marker() {
    let tags = vec![String::from("a"), String::from("b")];
    assert_eq!(require_non_sensitive(tags.clone()), tags);
    assert_eq!(
        require_non_sensitive((String::from("k"), 1u8)),
        (String::from("k"), 1u8)
    );
    assert_eq!(require_non_sensitive(Some(5i64)), Some(5i64));
}

#[test]
fn opted_in_struct_satisfies_marker() {
    let profile = PlainProfile {
        name: String::from("ada"),
        age: 36,
        tags: vec![String::from("math")],
    };
    let back = require_non_sensitive(profile);
    assert_eq!(back.name, "ada");
    assert_eq!(back.age, 36);
    assert_eq!(back.tags, vec![String::from("math")]);
}
