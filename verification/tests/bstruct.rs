use bootstrap::bproperty::BProperty;
use bootstrap::bstruct::BStruct;
use bootstrap::btype::BType;
use bootstrap::compileable::{Compile, Target};

fn case1() -> BStruct {
    BStruct {
        name: "garbage_day".into(),
        properties: vec![],
        public: false,
    }
}

fn case2() -> BStruct {
    BStruct {
        name: "foo_bar".into(),
        properties: vec![BProperty {
            name: "fooey".into(),
            btype: BType::bool,
            public: false,
        }],
        public: true,
    }
}

fn case3() -> BStruct {
    BStruct {
        name: "food".into(),
        properties: vec![
            BProperty {
                name: "apple".into(),
                btype: BType::i32,
                public: false,
            },
            BProperty {
                name: "banana".into(),
                btype: BType::bool,
                public: true,
            },
        ],
        public: true,
    }
}

#[test]
fn bstruct_case1_rust() {
    let target = Target::Rust;

    let input = case1();
    let expected: String = "struct garbage_day {}".into();
    let actual = input.compile(target);
    assert_eq!(expected, actual);
}

#[test]
fn bstruct_case2_rust() {
    let target = Target::Rust;

    let input = case2();
    let expected: String = "pub struct foo_bar {fooey: bool}".into();
    let actual = input.compile(target);
    assert_eq!(expected, actual);
}

#[test]
fn bstruct_case3_rust() {
    let target = Target::Rust;

    let input = case3();
    let expected: String = "pub struct food {apple: i32,pub banana: bool}".into();
    let actual = input.compile(target);
    assert_eq!(expected, actual);
}

#[test]
fn bstruct_case1_csharp() {
    let target = Target::CSharp;

    let input = case1();
    let expected: String = "private class garbage_day {}".into();
    let actual = input.compile(target);
    assert_eq!(expected, actual);
}

#[test]
fn bstruct_case2_csharp() {
    let target = Target::CSharp;

    let input = case2();
    let expected: String = "public class foo_bar {private bool fooey;}".into();
    let actual = input.compile(target);
    assert_eq!(expected, actual);
}

#[test]
fn bstruct_case3_csharp() {
    let target = Target::CSharp;

    let input = case3();
    let expected: String = "public class food {private Int32 apple;public bool banana;}".into();
    let actual = input.compile(target);
    assert_eq!(expected, actual);
}

#[test]
fn bstruct_case1_javascript() {
    let target = Target::JavaScript;

    let input = case1();
    let expected: String = "class private_garbage_day {}".into();
    let actual = input.compile(target);
    assert_eq!(expected, actual);
}

#[test]
fn bstruct_case2_javascript() {
    let target = Target::JavaScript;

    let input = case2();
    let expected: String = "class foo_bar {private_fooey;}".into();
    let actual = input.compile(target);
    assert_eq!(expected, actual);
}

#[test]
fn bstruct_case3_javascript() {
    let target = Target::JavaScript;

    let input = case3();
    let expected: String = "class food {private_apple;banana;}".into();
    let actual = input.compile(target);
    assert_eq!(expected, actual);
}

#[test]
fn empty_aggregate_public() {
    let input = BStruct {
        name: "food".into(),
        properties: vec![],
        public: true,
    };
    assert_eq!(input.compile(Target::Rust), "pub struct food {}");
    assert_eq!(input.compile(Target::CSharp), "public class food {}");
    assert_eq!(input.compile(Target::JavaScript), "class food {}");
}

#[test]
fn fields_render_in_declaration_order() {
    for target in [Target::Rust, Target::CSharp, Target::JavaScript] {
        let forward = case3().compile(target);
        let reversed = BStruct {
            name: "food".into(),
            properties: vec![
                BProperty {
                    name: "banana".into(),
                    btype: BType::bool,
                    public: true,
                },
                BProperty {
                    name: "apple".into(),
                    btype: BType::i32,
                    public: false,
                },
            ],
            public: true,
        }
        .compile(target);
        assert_ne!(forward, reversed);
        let apple = forward.find("apple").unwrap();
        let banana = forward.find("banana").unwrap();
        assert!(apple < banana);
    }
}

#[test]
fn rendering_is_deterministic() {
    for target in [Target::Rust, Target::CSharp, Target::JavaScript] {
        let first = case3().compile(target);
        let second = case3().compile(target);
        assert_eq!(first, second);
    }
}

#[test]
fn bstruct_new_checks_name() {
    assert!(BStruct::new("food".into(), vec![], true).is_ok());
    assert!(BStruct::new("".into(), vec![], true).is_err());
    assert!(BStruct::new("1st".into(), vec![], false).is_err());
}
