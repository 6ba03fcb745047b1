use bootstrap::add;
use bootstrap::server::{Page, ServerBuilder, ServerError};

#[test]
fn it_works() {
    let result = add(2, 2);
    assert_eq!(result, 4);
}

#[test]
fn builder_defaults() {
    let b = ServerBuilder::new();
    assert_eq!(b.port(), 3000);
    assert_eq!(b.content_limit(), 10 * 1024 * 1024);
    assert!(!b.is_https());
    assert!(b.dev_mode());
}

#[test]
fn builder_setters() {
    let b = ServerBuilder::new()
        .with_port(8080)
        .unwrap()
        .with_https(true)
        .unwrap()
        .with_content_limit(1024)
        .unwrap();
    assert_eq!(b.port(), 8080);
    assert!(b.is_https());
    assert_eq!(b.content_limit(), 1024);
}

#[test]
fn page_content_round_trip() {
    let page = Page::new().with_content("hello".into());
    assert_eq!(page.content(), "hello");
    let page = Page::new();
    assert_eq!(page.content(), "");
}

#[test]
fn with_page_rejects_duplicates() {
    let b = ServerBuilder::new()
        .with_page("/", Page::new().with_content("home".into()))
        .unwrap();
    match b.with_page("/", Page::new().with_content("other".into())) {
        Err(err) => assert_eq!(err, ServerError::PageExists),
        Ok(_) => panic!("a duplicate path must be refused"),
    }
}

#[test]
fn route_content_serves_pages() {
    let b = ServerBuilder::new()
        .with_page("/", Page::new().with_content("home".into()))
        .unwrap()
        .with_page("/about", Page::new().with_content("about us".into()))
        .unwrap();
    assert_eq!(b.route_content("/"), "home");
    assert_eq!(b.route_content("/about"), "about us");
    assert_eq!(b.route_content("/missing"), "Not Found");
}

#[test]
fn check_root_requires_root_page() {
    let empty = ServerBuilder::new();
    assert_eq!(empty.check_root().unwrap_err(), ServerError::NoRootPage);
    let b = ServerBuilder::new()
        .with_page("/", Page::new().with_content("home".into()))
        .unwrap();
    assert!(b.check_root().is_ok());
}
