use scratch::api::{
    delete, list, pull, pull_result, stats, text_result, Action, BootstrapArgs, ClientOpts,
    DeleteArgs, InputMode, ListArgs, PullArgs, PushArgs, StatsArgs,
};
use scratch::bootstrap::{bootstrap, bootstrap_step, BootstrapPhase};
use scratch::push::{push, push_step, PushPhase};
use scratch::error::{classify, ErrorKind, Malformed};
use scratch::format::ResponseFormat;
use scratch::http::{Delivery, Failure, HttpRequest, Method, Reply};
use scratch::validate::{Lifetime, Prefix};

fn header<'a>(req: &'a HttpRequest, name: &str) -> Option<&'a str> {
    req.headers.iter().find(|(n, _)| n == name).map(|(_, v)| v.as_str())
}

fn query<'a>(req: &'a HttpRequest, name: &str) -> Option<&'a str> {
    req.query.iter().find(|(n, _)| n == name).map(|(_, v)| v.as_str())
}

fn reply(content_type: Option<&str>, body: Option<&str>) -> Reply {
    Reply {
        content_type: content_type.map(|s| s.to_string()),
        body: body.map(|s| s.to_string()),
    }
}

fn push_args(input: Vec<u8>) -> PushArgs<()> {
    PushArgs::new(
        "key1".to_string(),
        "https://x.io".to_string(),
        InputMode::from_buffer(input),
        None,
        None,
        None,
        None,
        None,
    )
}

#[test]
fn format_aliases_read_back() {
    let plain = ["txt", "text", "text/plain"];
    let js = ["js", "json", "javascript", "text/javascript"];
    for a in plain {
        let f = ResponseFormat::from_name(a).unwrap();
        assert_eq!(f, ResponseFormat::TextPlain);
        assert_eq!(f.to_api_name(), "text/plain");
        assert_eq!(ResponseFormat::from_name(f.to_api_name()), Some(f));
    }
    for a in js {
        let f = ResponseFormat::from_name(a).unwrap();
        assert_eq!(f, ResponseFormat::TextJavascript);
        assert_eq!(f.to_api_name(), "text/javascript");
        assert_eq!(ResponseFormat::from_name(f.to_api_name()), Some(f));
    }
}

#[test]
fn format_aliases_are_case_sensitive() {
    assert_eq!(ResponseFormat::from_name("TXT"), None);
    assert_eq!(ResponseFormat::from_name("text/plain; charset=utf-8"), None);
    assert_eq!(ResponseFormat::from_name(""), None);
    assert_eq!(ResponseFormat::default(), ResponseFormat::TextPlain);
}

#[test]
fn extract_id_structured() {
    let body = "{\"id\":\"abc123\"}".to_string();
    assert_eq!(
        scratch::ident::extract_id(&body, ResponseFormat::TextJavascript),
        Some("abc123".to_string())
    );
    let spaced = "{ \"id\" : \"abc123\" }".to_string();
    assert_eq!(
        scratch::ident::extract_id(&spaced, ResponseFormat::TextJavascript),
        Some("abc123".to_string())
    );
}

#[test]
fn extract_id_plain_trims() {
    let body = "  abc123  \n".to_string();
    assert_eq!(
        scratch::ident::extract_id(&body, ResponseFormat::TextPlain),
        Some("abc123".to_string())
    );
}

#[test]
fn extract_id_wrong_shape_not_found() {
    let body = "{\"foo\":\"abc\"}".to_string();
    assert_eq!(scratch::ident::extract_id(&body, ResponseFormat::TextJavascript), None);
}

#[test]
fn endpoint_slash_normalized() {
    let a = list(ListArgs::new("k".to_string(), "https://x.io/".to_string()), ClientOpts::new(&None));
    let b = list(ListArgs::new("k".to_string(), "https://x.io".to_string()), ClientOpts::new(&None));
    assert_eq!(a.url, "https://x.io/scratch/file");
    assert_eq!(b.url, "https://x.io/scratch/file");
}

#[test]
fn list_request_shape() {
    let fmt = Some(ResponseFormat::TextJavascript);
    let r = list(ListArgs::new("k1".to_string(), "https://x.io".to_string()), ClientOpts::new(&fmt));
    assert_eq!(r.method, Method::Get);
    assert_eq!(r.method.as_str(), "GET");
    assert_eq!(header(&r, "Accept"), Some("text/javascript"));
    assert_eq!(header(&r, "Authorization"), Some("Bearer k1"));
    assert!(r.query.is_empty());
    assert!(!r.sends_input);
}

#[test]
fn delete_request_shape() {
    let fmt = Some(ResponseFormat::TextPlain);
    let r = delete(
        DeleteArgs::new("k1".to_string(), "https://x.io".to_string(), "abc".to_string()),
        ClientOpts::new(&fmt),
    );
    assert_eq!(r.method, Method::Delete);
    assert_eq!(r.url, "https://x.io/scratch/file/abc");
    assert_eq!(r.headers, vec![("Authorization".to_string(), "Bearer k1".to_string())]);
}

#[test]
fn stats_request_shape() {
    let r = stats(StatsArgs::new("k1".to_string(), "https://x.io/".to_string()), ClientOpts::new(&None));
    assert_eq!(r.method, Method::Get);
    assert_eq!(r.url, "https://x.io/scratch/me/stats");
    assert_eq!(header(&r, "Accept"), None);
    assert_eq!(header(&r, "Authorization"), Some("Bearer k1"));
}

#[test]
fn pull_defaults_to_latest() {
    let call = pull(
        PullArgs::new("https://x.io".to_string(), None, Some("k".to_string()), None, 7u8),
        ClientOpts::new(&None),
    );
    assert_eq!(call.request.url, "https://x.io/scratch/file/latest");
    assert_eq!(call.output, 7u8);
    assert!(call.request.query.is_empty());
}

#[test]
fn pull_with_id_and_password() {
    let call = pull(
        PullArgs::new(
            "https://x.io".to_string(),
            Some("p:abc".to_string()),
            Some("k".to_string()),
            Some("secret".to_string()),
            (),
        ),
        ClientOpts::new(&None),
    );
    assert_eq!(call.request.url, "https://x.io/scratch/file/p:abc");
    assert_eq!(header(&call.request, "Authorization"), Some("Bearer k"));
    assert_eq!(query(&call.request, "pw"), Some("secret"));
}

#[test]
fn anonymous_pull_omits_authorization() {
    let key = scratch::cli::pull_api_key(Some(true), Some("k".to_string()));
    assert_eq!(key, None);
    let fmt = Some(ResponseFormat::TextPlain);
    let call = pull(PullArgs::new("https://x.io".to_string(), None, key, None, ()), ClientOpts::new(&fmt));
    assert_eq!(header(&call.request, "Authorization"), None);
    assert_eq!(header(&call.request, "Accept"), Some("text/plain"));
    assert_eq!(
        scratch::cli::pull_api_key(Some(false), Some("k".to_string())),
        Some("k".to_string())
    );
}

#[test]
fn pull_results() {
    assert_eq!(pull_result(Ok(Delivery::Written)).ok(), Some(String::new()));
    match pull_result(Ok(Delivery::WriteFailed("broken pipe".to_string()))) {
        Err(e) => {
            assert!(matches!(e, ErrorKind::LocalIoError(_)));
            assert_eq!(e.message(), "local io error: broken pipe");
        }
        Ok(_) => panic!("expected a local error"),
    }
    match pull_result(Err(Failure::Status(Some("not found".to_string())))) {
        Err(e) => assert_eq!(e.message(), "not found"),
        Ok(_) => panic!("expected a status error"),
    }
}

#[test]
fn push_create_request_shape() {
    let args = PushArgs::new(
        "key1".to_string(),
        "https://x.io/".to_string(),
        InputMode::<()>::from_buffer(vec![1, 2, 3]),
        Some(true),
        Some(false),
        Some("pw1".to_string()),
        Some(Prefix::parse("creds.aws:").ok().unwrap()),
        Some(Lifetime::parse("10m").ok().unwrap()),
    );
    let fmt = Some(ResponseFormat::TextJavascript);
    let (phase, action) = push(&args, &ClientOpts::new(&fmt));
    assert!(matches!(phase, PushPhase::Create));
    let req = match action {
        Action::Call(req) => req,
        _ => panic!("expected a call"),
    };
    assert_eq!(req.method, Method::Post);
    assert_eq!(req.url, "https://x.io/scratch/file");
    assert_eq!(header(&req, "Authorization"), Some("Bearer key1"));
    assert_eq!(header(&req, "Content-Length"), Some("0"));
    assert_eq!(header(&req, "Accept"), Some("text/javascript"));
    let names: Vec<&str> = req.query.iter().map(|(n, _)| n.as_str()).collect();
    assert_eq!(names, vec!["lifetime", "private", "pw", "burn", "prefix"]);
    assert_eq!(query(&req, "lifetime"), Some("10m"));
    assert_eq!(query(&req, "private"), Some("false"));
    assert_eq!(query(&req, "pw"), Some("pw1"));
    assert_eq!(query(&req, "burn"), Some("true"));
    assert_eq!(query(&req, "prefix"), Some("creds.aws:"));
}

#[test]
fn push_omits_absent_modifiers() {
    let args = push_args(vec![]);
    let (_, action) = push(&args, &ClientOpts::new(&None));
    match action {
        Action::Call(req) => assert!(req.query.is_empty()),
        _ => panic!("expected a call"),
    }
}

#[test]
fn push_reports_before_upload_failure() {
    let args = push_args(b"hello world!".to_vec());
    let created = Ok(reply(Some("text/plain"), Some(" abc123\n")));
    let (phase, action) = push_step(&args, PushPhase::Create, created);
    assert!(matches!(&phase, PushPhase::Upload(id) if id == "abc123"));
    let req = match action {
        Action::ReportThenCall(body, req) => {
            assert_eq!(body, " abc123\n");
            req
        }
        _ => panic!("expected a report and an upload"),
    };
    assert_eq!(req.method, Method::Post);
    assert_eq!(req.url, "https://x.io/scratch/file/abc123");
    assert_eq!(header(&req, "Content-Length"), Some("12"));
    assert_eq!(header(&req, "Authorization"), Some("Bearer key1"));
    assert!(req.sends_input);
    let (phase, action) = push_step(&args, phase, Err(Failure::Transport("reset".to_string())));
    assert!(matches!(phase, PushPhase::Finished));
    match action {
        Action::Finish(Err(e)) => {
            assert_eq!(
                e.message(),
                "file abc123 was created but its upload failed: unexpected request error reset"
            );
            match e {
                ErrorKind::UploadFailed(id, cause) => {
                    assert_eq!(id, "abc123");
                    assert!(matches!(*cause, ErrorKind::Transport(_)));
                }
                _ => panic!("expected an upload failure"),
            }
        }
        _ => panic!("expected a failure"),
    }
}

#[test]
fn push_upload_success_returns_body() {
    let args = push_args(vec![0; 12345]);
    let created = Ok(reply(Some("text/javascript"), Some("{\"id\":\"zz9\"}")));
    let (phase, action) = push_step(&args, PushPhase::Create, created);
    match action {
        Action::ReportThenCall(_, req) => {
            assert_eq!(req.url, "https://x.io/scratch/file/zz9");
            assert_eq!(header(&req, "Content-Length"), Some("12345"));
        }
        _ => panic!("expected an upload"),
    }
    let (_, action) = push_step(&args, phase, Ok(reply(None, Some("stored"))));
    match action {
        Action::Finish(Ok(t)) => assert_eq!(t, "stored"),
        _ => panic!("expected success"),
    }
}

#[test]
fn push_transport_failure_never_uploads() {
    let args = push_args(vec![1]);
    let (phase, action) = push_step(&args, PushPhase::Create, Err(Failure::Transport("dns".to_string())));
    assert!(matches!(phase, PushPhase::Finished));
    match action {
        Action::Finish(Err(ErrorKind::Transport(d))) => assert_eq!(d, "dns"),
        _ => panic!("expected the push to end"),
    }
}

#[test]
fn push_create_malformed_replies() {
    let args = push_args(vec![1]);
    let cases = [
        (reply(Some("text/plain"), None), Malformed::BadEncoding),
        (reply(None, Some("abc")), Malformed::NoContentType),
        (reply(Some("application/json"), Some("abc")), Malformed::NoContentType),
        (reply(Some("text/javascript"), Some("{\"foo\":\"abc\"}")), Malformed::NoId),
    ];
    for (r, m) in cases {
        let (phase, action) = push_step(&args, PushPhase::Create, Ok(r));
        assert!(matches!(phase, PushPhase::Finished));
        match action {
            Action::Finish(Err(ErrorKind::ServerError(got))) => assert_eq!(got, m),
            _ => panic!("expected a malformed reply"),
        }
    }
}

#[test]
fn error_messages() {
    assert_eq!(
        ErrorKind::ServerError(Malformed::NoId).message(),
        "malformed resp from server: no id"
    );
    assert_eq!(
        ErrorKind::ServerError(Malformed::NoContentType).message(),
        "malformed resp from server: no content_type"
    );
    assert_eq!(
        ErrorKind::ServerError(Malformed::BadEncoding).message(),
        "malformed resp from server: bad encoding"
    );
    assert_eq!(classify(Failure::Status(None)).message(), "malformed response body");
    assert_eq!(classify(Failure::Status(Some("quota".to_string()))).message(), "quota");
}

#[test]
fn text_results() {
    assert_eq!(text_result(Ok(reply(None, Some("a b")))).ok(), Some("a b".to_string()));
    assert!(matches!(
        text_result(Ok(reply(None, None))),
        Err(ErrorKind::ServerError(Malformed::BadEncoding))
    ));
    assert!(matches!(
        text_result(Err(Failure::Status(Some("no".to_string())))),
        Err(ErrorKind::ServerStatus(_))
    ));
}

#[test]
fn bootstrap_fetches_both_values() {
    let args = BootstrapArgs::new("user".to_string(), "pw".to_string());
    let (phase, action) = bootstrap(&args);
    let req = match action {
        Action::Call(req) => req,
        _ => panic!("expected a call"),
    };
    assert_eq!(req.method, Method::Get);
    assert_eq!(req.url, "https://kilobytetools.io/bootstrap/api_key");
    assert_eq!(header(&req, "Authorization"), Some("Basic dXNlcjpwdw=="));
    let (phase, action) = bootstrap_step(&args, phase, Ok(reply(None, Some(" KEY \n"))));
    match action {
        Action::Call(req) => {
            assert_eq!(req.url, "https://kilobytetools.io/bootstrap/dataplane_endpoint");
            assert_eq!(header(&req, "Authorization"), Some("Basic dXNlcjpwdw=="));
        }
        _ => panic!("expected a second call"),
    }
    let (phase, action) = bootstrap_step(&args, phase, Ok(reply(None, Some("https://d.io\n"))));
    assert!(matches!(phase, BootstrapPhase::Finished));
    match action {
        Action::Finish(Ok(resp)) => {
            assert_eq!(resp.api_key, "KEY");
            assert_eq!(resp.dataplane_endpoint, "https://d.io");
        }
        _ => panic!("expected a result"),
    }
}

#[test]
fn bootstrap_second_failure_fails_whole() {
    let args = BootstrapArgs::new("user".to_string(), "pw".to_string());
    let (phase, _) = bootstrap(&args);
    let (phase, _) = bootstrap_step(&args, phase, Ok(reply(None, Some("KEY"))));
    let (_, action) = bootstrap_step(&args, phase, Err(Failure::Status(Some("denied".to_string()))));
    match action {
        Action::Finish(Err(e)) => assert_eq!(e.message(), "denied"),
        _ => panic!("expected a failure"),
    }
}

#[test]
fn input_sizes() {
    assert_eq!(InputMode::<()>::from_buffer(vec![0; 5]).size(), 5);
    assert_eq!(InputMode::File((), 4096).size(), 4096);
}

#[test]
fn upload_failure_differs_from_create_failure() {
    let args = push_args(vec![1, 2]);
    let (_, create_fail) = push_step(&args, PushPhase::Create, Err(Failure::Status(Some("full".to_string()))));
    let (_, upload_fail) = push_step(
        &args,
        PushPhase::Upload("id7".to_string()),
        Err(Failure::Status(Some("full".to_string()))),
    );
    match create_fail {
        Action::Finish(Err(ErrorKind::ServerStatus(m))) => assert_eq!(m, "full"),
        _ => panic!("expected a status failure"),
    }
    match upload_fail {
        Action::Finish(Err(e)) => {
            assert_eq!(e.message(), "file id7 was created but its upload failed: full");
            assert!(matches!(e, ErrorKind::UploadFailed(_, _)));
        }
        _ => panic!("expected an upload failure"),
    }
    let (_, bad_text) = push_step(&args, PushPhase::Upload("id7".to_string()), Ok(reply(None, None)));
    match bad_text {
        Action::Finish(Err(ErrorKind::UploadFailed(id, cause))) => {
            assert_eq!(id, "id7");
            assert!(matches!(*cause, ErrorKind::ServerError(Malformed::BadEncoding)));
        }
        _ => panic!("expected an upload failure"),
    }
}

#[test]
fn extract_id_rejects_extra_fields() {
    let body = "{\"id\":\"a\",\"b\":\"c\"}".to_string();
    assert_eq!(scratch::ident::extract_id(&body, ResponseFormat::TextJavascript), None);
}

#[test]
fn decimal_content_length() {
    assert_eq!(scratch::text::u64_to_decimal(0), "0");
    assert_eq!(scratch::text::u64_to_decimal(907), "907");
    assert_eq!(scratch::text::u64_to_decimal(u64::MAX), "18446744073709551615");
}
