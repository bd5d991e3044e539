use wbc_studio::commands::{greet, pick_directory};

#[test]
fn greet_formats_name() {
    assert_eq!(greet("Ada"), "Hello, Ada! You've been greeted from Rust!");
}

#[test]
fn greet_empty_name() {
    assert_eq!(greet(""), "Hello, ! You've been greeted from Rust!");
}

#[test]
fn greet_is_repeatable() {
    assert_eq!(greet("Grace"), greet("Grace"));
}

#[test]
fn pick_directory_returns_fixed_path() {
    assert_eq!(
        pick_directory(),
        Ok(Some("C:\\Users\\digimbyte\\Documents".to_string()))
    );
}

#[test]
fn pick_directory_twice_gives_same_value() {
    let a = pick_directory();
    let b = pick_directory();
    assert_eq!(a, b);
}
