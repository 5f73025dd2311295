use insh::ids::fresh_id;
use insh::requests::{Request, RequestParams};

#[test]
fn identifiers_are_random_uuids_and_differ() {
    let a = fresh_id();
    let b = fresh_id();
    assert_ne!(a, b);
    for id in [a, b] {
        assert_eq!((id >> 76) & 0xf, 4);
        assert_eq!((id >> 62) & 0x3, 2);
    }
}

#[test]
fn each_request_gets_its_own_identifier() {
    let first = Request::new(RequestParams::AiStatus);
    let second = Request::new(RequestParams::AiStatus);
    assert_ne!(first.uuid, second.uuid);
    assert_eq!((first.uuid >> 76) & 0xf, 4);
}
