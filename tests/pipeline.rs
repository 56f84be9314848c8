use futures::executor::block_on;
use futures::future::ready;
use handler_pipeline::extract::{Extract, ExtractAction, ExtractFlow, ExtractStage};
use handler_pipeline::factory::Factory;
use handler_pipeline::handler::{FactoryAction, Handler, HandlerFlow, HandlerStage};
use handler_pipeline::progress::Progress;
use hyper::{Body, Request, Response, StatusCode};

fn request_with_content() -> Request<Body> {
    Request::builder()
        .method("POST")
        .uri("/items/42")
        .header("x-test", "1")
        .body(Body::from("payload"))
        .unwrap()
}

#[test]
fn test() {
    Handler::new(|| ready(Response::<Body>::default()));
}

#[test]
fn factory_two_arguments_sum() {
    let f = |a: i32, b: i32| ready(a + b);
    let fut = Factory::call(&f, (2, 3));
    assert_eq!(block_on(fut), 5);
}

#[test]
fn factory_zero_arguments() {
    let f = || ready(7u8);
    assert_eq!(block_on(Factory::call(&f, ())), 7);
}

#[test]
fn factory_one_argument() {
    let f = |a: String| a.len();
    assert_eq!(Factory::call(&f, ("four".to_string(),)), 4);
}

#[test]
fn factory_keeps_argument_order() {
    let f = |a: i32, b: i32, c: i32| (a, b, c);
    assert_eq!(Factory::call(&f, (1, 2, 3)), (1, 2, 3));
    let g = |a: i32, b: i32| a - b;
    assert_eq!(Factory::call(&g, (10, 4)), 6);
}

#[test]
fn factory_ten_arguments_in_order() {
    let f = |a: u8, b: u8, c: u8, d: u8, e: u8, f: u8, g: u8, h: u8, i: u8, j: u8| {
        vec![a, b, c, d, e, f, g, h, i, j]
    };
    let r = Factory::call(&f, (0, 1, 2, 3, 4, 5, 6, 7, 8, 9));
    assert_eq!(r, vec![0, 1, 2, 3, 4, 5, 6, 7, 8, 9]);
}

#[test]
fn zero_argument_handler_yields_converted_fixed_output() {
    let handler = Handler::new(|| ready("fixed"));
    let (fut, mut flow) = handler.call((), request_with_content());
    assert_eq!(flow.stage(), HandlerStage::RunningFactory);
    let out = block_on(fut);
    match flow.on_factory(Progress::Ready(out)) {
        FactoryAction::Convert(o, req) => {
            assert_eq!(o, "fixed");
            assert_eq!(req.uri(), "/");
        }
        FactoryAction::Suspend => panic!("a ready output must start the conversion"),
    }
    assert_eq!(flow.stage(), HandlerStage::RunningConversion);
    match flow.on_conversion(Progress::Ready(Ok::<u32, ()>(1))) {
        Progress::Ready(resp) => assert_eq!(resp.status(), StatusCode::OK),
        Progress::Pending => panic!("a finished conversion must respond"),
    }
    assert_eq!(flow.stage(), HandlerStage::Finished);
}

#[test]
fn handler_clone_calls_same_factory() {
    let handler = Handler::new(|a: i32, b: i32| a * b);
    let copy = handler.clone();
    let (r, _) = copy.call((6, 7), Request::new(Body::empty()));
    assert_eq!(r, 42);
}

#[test]
fn pending_polls_keep_handler_stage() {
    let mut flow = HandlerFlow::new(Request::new(Body::empty()));
    for _ in 0..3 {
        assert!(matches!(flow.on_factory::<i32>(Progress::Pending), FactoryAction::Suspend));
        assert_eq!(flow.stage(), HandlerStage::RunningFactory);
    }
    assert!(matches!(flow.on_factory(Progress::Ready(5)), FactoryAction::Convert(5, _)));
    for _ in 0..3 {
        assert!(matches!(
            flow.on_conversion::<(), ()>(Progress::Pending),
            Progress::Pending
        ));
        assert_eq!(flow.stage(), HandlerStage::RunningConversion);
    }
}

#[test]
fn failed_conversion_gives_default_response() {
    let mut flow = HandlerFlow::new(Request::new(Body::empty()));
    let _ = flow.on_factory(Progress::Ready("out"));
    match flow.on_conversion(Progress::Ready(Err::<(), &str>("broken"))) {
        Progress::Ready(resp) => assert_eq!(resp.status(), StatusCode::OK),
        Progress::Pending => panic!("a finished conversion must respond"),
    }
    assert_eq!(flow.stage(), HandlerStage::Finished);
}

#[test]
fn failed_extraction_ends_with_error() {
    let extract: Extract<u32, &str> = Extract::new("service");
    let (service, mut flow) = extract.call();
    assert_eq!(service, "service");
    assert_eq!(flow.stage(), ExtractStage::RunningExtraction);
    match flow.on_extraction(Progress::Ready(Err::<u32, &str>("bad argument"))) {
        ExtractAction::Fail(e, req) => {
            assert_eq!(e, "bad argument");
            assert_eq!(req.uri(), "/");
        }
        _ => panic!("a failed extraction must fail"),
    }
    assert_eq!(flow.stage(), ExtractStage::Finished);
}

#[test]
fn successful_extraction_relays_inner_response() {
    let mut flow = ExtractFlow::new();
    assert!(matches!(
        flow.on_extraction::<u32, ()>(Progress::Pending),
        ExtractAction::Suspend
    ));
    assert_eq!(flow.stage(), ExtractStage::RunningExtraction);
    let item = match flow.on_extraction(Progress::Ready(Ok::<u32, ()>(17))) {
        ExtractAction::Invoke(item, _) => item,
        _ => panic!("a successful extraction must invoke the inner service"),
    };
    assert_eq!(item, 17);
    assert_eq!(flow.stage(), ExtractStage::RunningHandler);

    let handler = Handler::new(|n: u32| n + 1);
    let (out, _) = handler.call((item,), Request::new(Body::empty()));
    assert_eq!(out, 18);

    assert!(matches!(
        flow.on_handler::<Response<Body>>(Progress::Pending),
        Progress::Pending
    ));
    assert_eq!(flow.stage(), ExtractStage::RunningHandler);
    let mut resp = Response::new(Body::from("created"));
    *resp.status_mut() = StatusCode::CREATED;
    match flow.on_handler(Progress::Ready(resp)) {
        Progress::Ready(r) => assert_eq!(r.status(), StatusCode::CREATED),
        Progress::Pending => panic!("a ready inner response must be relayed"),
    }
    assert_eq!(flow.stage(), ExtractStage::Finished);
}

fn is_empty_request(req: &Request<Body>) -> bool {
    req.method() == hyper::Method::GET && req.uri() == "/" && req.headers().is_empty()
}

fn is_default_response(resp: &Response<Body>) -> bool {
    resp.status() == StatusCode::OK && resp.headers().is_empty()
}

fn run_zero_argument_handler(req: Request<Body>, conversion_ok: bool) -> Response<Body> {
    let handler = Handler::new(|| ready(17u8));
    let (fut, mut flow) = handler.clone().call((), req);
    let out = block_on(fut);
    match flow.on_factory(Progress::Ready(out)) {
        FactoryAction::Convert(o, conv_req) => {
            assert_eq!(o, 17);
            assert!(is_empty_request(&conv_req));
        }
        FactoryAction::Suspend => panic!("a ready output must start the conversion"),
    }
    let outcome: Result<Response<Body>, &str> = if conversion_ok {
        let mut own = Response::new(Body::from("own"));
        *own.status_mut() = StatusCode::ACCEPTED;
        Ok(own)
    } else {
        Err("conversion failed")
    };
    match flow.on_conversion(Progress::Ready(outcome)) {
        Progress::Ready(resp) => resp,
        Progress::Pending => panic!("a finished conversion must respond"),
    }
}

#[test]
fn conversion_response_ignores_outcome_and_request() {
    let a = run_zero_argument_handler(request_with_content(), true);
    let b = run_zero_argument_handler(Request::new(Body::empty()), false);
    assert!(is_default_response(&a));
    assert!(is_default_response(&b));
    assert_eq!(a.status(), b.status());
    assert_eq!(a.headers(), b.headers());
}

#[test]
fn extraction_hands_on_empty_requests() {
    let mut ok_flow = ExtractFlow::new();
    match ok_flow.on_extraction(Progress::Ready(Ok::<&str, ()>("value"))) {
        ExtractAction::Invoke(item, req) => {
            assert_eq!(item, "value");
            assert!(is_empty_request(&req));
        }
        _ => panic!("a successful extraction must invoke the inner service"),
    }
    let mut err_flow = ExtractFlow::new();
    match err_flow.on_extraction(Progress::Ready(Err::<&str, u8>(9))) {
        ExtractAction::Fail(e, req) => {
            assert_eq!(e, 9);
            assert!(is_empty_request(&req));
        }
        _ => panic!("a failed extraction must fail"),
    }
}
