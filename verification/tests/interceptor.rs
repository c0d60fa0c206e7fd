use isahc::body::Body;
use isahc::error::ErrorKind;
use isahc::interceptor::{conclude, Context, Next};
use isahc::response::Response;

fn response(status: u16) -> Response<Body> {
    Response {
        status,
        headers: http::HeaderMap::new(),
        effective_uri: None,
        local_addr: None,
        remote_addr: None,
        metrics: None,
        body: Body::empty(),
    }
}

#[test]
fn request_passes_the_interceptors_in_their_order() {
    let interceptors = ["first", "second", "third"];
    let invoker = 42u8;
    let mut cx = Context::new(&invoker, &interceptors);
    assert_eq!(cx.remaining(), &["first", "second", "third"]);
    let mut seen = Vec::new();
    loop {
        match cx.next() {
            Next::Intercept(interceptor, inner) => {
                seen.push(*interceptor);
                assert_eq!(inner.remaining().len(), 3 - seen.len());
                cx = inner;
            }
            Next::Invoke(invoker) => {
                assert_eq!(*invoker, 42);
                break;
            }
        }
    }
    assert_eq!(seen, vec!["first", "second", "third"]);
}

#[test]
fn request_without_interceptors_goes_to_the_invoker() {
    let interceptors: [&str; 0] = [];
    let invoker = "invoker";
    let cx = Context::new(&invoker, &interceptors);
    assert!(matches!(cx.next(), Next::Invoke(&"invoker")));
    assert!(matches!(cx.next(), Next::Invoke(&"invoker")));
}

#[test]
fn failure_of_an_interceptor_carries_its_message() {
    match conclude::<Response<Body>>(Err(String::from("not today"))) {
        Err(isahc::error::ClientError::Curl(message)) => assert_eq!(message, "not today"),
        Err(other) => panic!("{:?}", other),
        Ok(_) => panic!("there was no response"),
    }
    match conclude::<u8>(Err(String::new())) {
        Err(error) => assert_eq!(error.kind(), ErrorKind::Curl),
        Ok(_) => panic!("there was no response"),
    }
    assert_eq!(conclude(Ok(7u8)).unwrap(), 7);
    assert_eq!(conclude(Ok(response(204))).unwrap().status, 204);
}
