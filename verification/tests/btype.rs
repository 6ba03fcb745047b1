use bootstrap::btype::BType;
use bootstrap::compileable::{Compile, Target};

#[test]
fn i32_compiles_rust() {
    let expected: String = "i32".into();
    let actual = BType::i32.compile(Target::Rust);
    assert_eq!(expected, actual);
}

#[test]
fn i32_compiles_csharp() {
    let expected: String = "Int32".into();
    let actual = BType::i32.compile(Target::CSharp);
    assert_eq!(expected, actual);
}

#[test]
fn i32_compiles_javascript() {
    let expected: String = "Number".into();
    let actual = BType::i32.compile(Target::JavaScript);
    assert_eq!(expected, actual);
}

#[test]
fn bool_compiles_rust() {
    let expected: String = "bool".into();
    let actual = BType::bool.compile(Target::Rust);
    assert_eq!(expected, actual);
}

#[test]
fn bool_compiles_csharp() {
    let expected: String = "bool".into();
    let actual = BType::bool.compile(Target::CSharp);
    assert_eq!(expected, actual);
}

#[test]
fn bool_compiles_javascript() {
    let expected: String = "Boolean".into();
    let actual = BType::bool.compile(Target::JavaScript);
    assert_eq!(expected, actual);
}

#[test]
fn every_mapping_is_nonempty() {
    for t in [BType::i32, BType::bool] {
        for target in [Target::Rust, Target::CSharp, Target::JavaScript] {
            assert!(!t.compile(target).is_empty());
        }
    }
}
