use ruinaio::error::{Code, Error};
use ruinaio::node::Node;
use ruinaio::params::ListNodes;
use ruinaio::patch::Patch;

fn node(slug: &str) -> Node {
    Node { id: 1, slug: slug.to_string(), title: String::new(), body: String::new() }
}

#[test]
fn node_namespace() {
    assert_eq!(node("Foo/Bar/Baz").namespace(), Some("Foo/Bar/"));
    assert_eq!(node("Baz").namespace(), None);
}

#[test]
fn patch_predicates() {
    let untouched: Patch<u32> = Patch::default();
    assert!(untouched.is_none() && !untouched.is_null() && !untouched.is_some());
    let cleared: Patch<u32> = Patch::from(None);
    assert!(cleared.is_null() && !cleared.is_none() && !cleared.is_some());
    let set: Patch<u32> = Patch::from(Some(7));
    assert!(set.is_some() && !set.is_none() && !set.is_null());
    assert_eq!(set, Patch::SetTo(7));
}

#[test]
fn patch_as_option() {
    assert_eq!(Patch::SetTo(3).as_option(), Some(&3));
    assert_eq!(Patch::<u32>::Cleared.as_option(), None);
    assert_eq!(Patch::<u32>::Untouched.as_option(), None);
}

#[test]
fn error_constructors_and_status() {
    let e = Error::not_found("node not found");
    assert_eq!(e.code, Code::NotFound);
    assert_eq!(e.reason, "node not found");
    assert_eq!(e.status_code(), 404);

    let e = Error::out_of_bounds("too big");
    assert_eq!(e.code, Code::OutOfBounds);
    assert_eq!(e.status_code(), 400);

    assert_eq!(Error::new(Code::InvalidSlug, "bad").status_code(), 400);
    assert_eq!(Error::new(Code::InternalServerError, "oops").status_code(), 500);
}

#[test]
fn list_params() {
    let d = ListNodes::default();
    assert_eq!((d.page, d.limit), (1, 20));
    assert_eq!(d.limit_offset(), (20, 0));
    assert_eq!(ListNodes { page: 3, limit: 10 }.limit_offset(), (10, 20));
    assert_eq!(ListNodes { page: u32::MAX, limit: 20 }.limit_offset(), (20, (u32::MAX as i64 - 1) * 20));
}
