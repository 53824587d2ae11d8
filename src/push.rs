//! Push: a create request that yields an identifier, then an upload of the payload.
//!
//! The create reply's body is reported before the upload is sent, so a caller
//! learns the identifier even where the upload fails and the created file is
//! left on the server.
use vstd::prelude::*;
use crate::api::{
    accept_headers, action_url, authorize, bearer, input_size, plain_request, request,
    text_outcome, text_result, Action, ActionView, ClientOpts, PushArgs,
};
use crate::error::{classify, failure_error, ErrorKind, ErrorView, Malformed};
use crate::format::ResponseFormat;
use crate::http::{pairs_view, push_pair, Failure, HttpRequest, Method, PairView, Reply, RequestView};
use crate::ident::{content_format, extract_id, get_content_type, id_in, reply_text, text_or_err};
use crate::text::{decimal, join, u64_to_decimal};

verus! {

/// A query parameter that is sent only where it has a value.
pub open spec fn opt_pair(name: Seq<char>, value: Option<Seq<char>>) -> Seq<PairView> {
    match value {
        Some(v) => seq![(name, v)],
        None => seq![],
    }
}

/// How a flag is written in a query.
pub open spec fn bool_text(b: bool) -> Seq<char> {
    if b { "true"@ } else { "false"@ }
}

/// The modifiers of a push, in the order they are sent; absent ones are left out.
pub open spec fn create_query<F>(args: PushArgs<F>) -> Seq<PairView> {
    opt_pair("lifetime"@, match args.lifetime { Some(l) => Some(l.0@), None => None })
        + opt_pair("private"@, match args.private { Some(b) => Some(bool_text(b)), None => None })
        + opt_pair("pw"@, match args.pw { Some(p) => Some(p@), None => None })
        + opt_pair("burn"@, match args.burn { Some(b) => Some(bool_text(b)), None => None })
        + opt_pair("prefix"@, match args.prefix { Some(p) => Some(p.0@), None => None })
}

/// The first request of a push, which creates the file and yields its identifier.
pub open spec fn create_request<F>(args: PushArgs<F>, opts: ClientOpts) -> RequestView {
    plain_request(
        Method::Post,
        action_url(args.endpoint@, "file"@),
        accept_headers(opts).push(bearer(args.api_key@)).push(("Content-Length"@, "0"@)),
        create_query(args),
    )
}

/// The second request of a push, which sends the payload to the created file.
pub open spec fn upload_request<F>(args: PushArgs<F>, id: Seq<char>) -> RequestView {
    RequestView {
        method: Method::Post,
        url: action_url(args.endpoint@, "file/"@ + id),
        headers: seq![bearer(args.api_key@), ("Content-Length"@, decimal(input_size(&args.input)))],
        query: seq![],
        sends_input: true,
    }
}

/// What came of a create request: its body and the identifier in it,
/// or why the push cannot go on.
pub open spec fn created(outcome: Result<Reply, Failure>) -> Result<(Seq<char>, Seq<char>), ErrorView> {
    match outcome {
        Err(f) => Err(failure_error(f)),
        Ok(reply) => match reply_text(reply) {
            Err(e) => Err(e),
            Ok(body) => match content_format(reply.content_type) {
                None => Err(ErrorView::ServerError(Malformed::NoContentType)),
                Some(f) => match id_in(body, f) {
                    None => Err(ErrorView::ServerError(Malformed::NoId)),
                    Some(id) => Ok((body, id)),
                },
            },
        },
    }
}

/// Where a push stands.
pub enum PushPhase {
    /// The create request is out.
    Create,
    /// The upload request is out; the file exists on the server under this identifier.
    Upload(String),
    /// The push is over.
    Finished,
}

/// A `PushPhase` as mathematical values.
pub enum PushStage {
    Create,
    Upload(Seq<char>),
    Finished,
}

impl View for PushPhase {
    type V = PushStage;

    open spec fn view(&self) -> PushStage {
        match self {
            PushPhase::Create => PushStage::Create,
            PushPhase::Upload(id) => PushStage::Upload(id@),
            PushPhase::Finished => PushStage::Finished,
        }
    }
}

/// The result of a push by what came of its upload: the reply's text, or a
/// failure that names the created identifier, so it is never taken for a failed create.
pub open spec fn uploaded(id: Seq<char>, outcome: Result<Reply, Failure>) -> Result<Seq<char>, ErrorView> {
    match text_outcome(outcome) {
        Ok(t) => Ok(t),
        Err(e) => Err(ErrorView::UploadFailed(id, Box::new(e))),
    }
}

/// What a push does next, given where it stands and what came of the request that was out.
/// A create that fails ends the push; one that succeeds reports its body before the upload.
pub open spec fn push_next<F>(
    args: PushArgs<F>,
    stage: PushStage,
    outcome: Result<Reply, Failure>,
) -> (PushStage, ActionView<Seq<char>>) {
    match stage {
        PushStage::Upload(id) => (PushStage::Finished, ActionView::Finish(uploaded(id, outcome))),
        _ => match created(outcome) {
            Ok((body, id)) => (PushStage::Upload(id), ActionView::ReportThenCall(body, upload_request(args, id))),
            Err(e) => (PushStage::Finished, ActionView::Finish(Err(e))),
        },
    }
}

/// Appends an optional query parameter.
fn push_opt(query: &mut Vec<(String, String)>, name: &str, value: Option<String>)
    ensures
        pairs_view(final(query)@) == pairs_view(old(query)@) + opt_pair(name@,
            match value { Some(v) => Some(v@), None => None }),
{
    match value {
        Some(v) => {
            push_pair(query, name, v);
        },
        None => {
            assert(pairs_view(final(query)@) =~= pairs_view(old(query)@) + Seq::<PairView>::empty());
        },
    }
}

/// How a flag is written in a query.
fn flag_text(b: bool) -> (r: String)
    ensures
        r@ == bool_text(b),
{
    if b { String::from_str("true") } else { String::from_str("false") }
}

/// Starts a push: the create request, `POST .../file` with bearer authorization,
/// `Content-Length: 0` and the modifiers that are present.
pub fn push<F>(args: &PushArgs<F>, opts: &ClientOpts) -> (r: (PushPhase, Action<String>))
    ensures
        r.0@ == PushStage::Create,
        r.1@ == ActionView::<Seq<char>>::Call(create_request(*args, *opts)),
{
    let mut req = request(Method::Post, args.endpoint.as_str(), opts, "file");
    authorize(&mut req, args.api_key.as_str());
    push_pair(&mut req.headers, "Content-Length", String::from_str("0"));
    let mut query: Vec<(String, String)> = Vec::new();
    push_opt(&mut query, "lifetime", match &args.lifetime { Some(l) => Some(l.0.clone()), None => None });
    push_opt(&mut query, "private", match args.private { Some(b) => Some(flag_text(b)), None => None });
    push_opt(&mut query, "pw", match &args.pw { Some(p) => Some(p.clone()), None => None });
    push_opt(&mut query, "burn", match args.burn { Some(b) => Some(flag_text(b)), None => None });
    push_opt(&mut query, "prefix", match &args.prefix { Some(p) => Some(p.0.clone()), None => None });
    assert(pairs_view(query@) =~= create_query(*args));
    req.query = query;
    (PushPhase::Create, Action::Call(req))
}

/// The upload request for a created identifier.
fn upload<F>(args: &PushArgs<F>, id: &str) -> (r: HttpRequest)
    ensures
        r@ == upload_request(*args, id@),
{
    let no_format: Option<ResponseFormat> = None;
    let bare = ClientOpts::new(&no_format);
    let action = join("file/", id);
    let mut req = request(Method::Post, args.endpoint.as_str(), &bare, action.as_str());
    authorize(&mut req, args.api_key.as_str());
    push_pair(&mut req.headers, "Content-Length", u64_to_decimal(args.input.size()));
    req.sends_input = true;
    assert(req@.headers =~= upload_request(*args, id@).headers);
    req
}

/// Advances a push by what came of the request that was out.
pub fn push_step<F>(
    args: &PushArgs<F>,
    phase: PushPhase,
    outcome: Result<Reply, Failure>,
) -> (r: (PushPhase, Action<String>))
    requires
        !(phase is Finished),
    ensures
        (r.0@, r.1@) == push_next(*args, phase@, outcome),
{
    match phase {
        PushPhase::Upload(id) => {
            let result = match text_result(outcome) {
                Ok(t) => Ok(t),
                Err(e) => Err(ErrorKind::UploadFailed(id, Box::new(e))),
            };
            (PushPhase::Finished, Action::Finish(result))
        },
        _ => {
            let reply = match outcome {
                Ok(reply) => reply,
                Err(f) => { return (PushPhase::Finished, Action::Finish(Err(classify(f)))); },
            };
            let format = get_content_type(&reply);
            let body = match text_or_err(reply) {
                Ok(b) => b,
                Err(e) => { return (PushPhase::Finished, Action::Finish(Err(e))); },
            };
            let format = match format {
                Some(f) => f,
                None => {
                    return (PushPhase::Finished,
                        Action::Finish(Err(ErrorKind::ServerError(Malformed::NoContentType))));
                },
            };
            let id = match extract_id(&body, format) {
                Some(id) => id,
                None => {
                    return (PushPhase::Finished,
                        Action::Finish(Err(ErrorKind::ServerError(Malformed::NoId))));
                },
            };
            let req = upload(args, id.as_str());
            (PushPhase::Upload(id), Action::ReportThenCall(body, req))
        },
    }
}

/// A create that fails in any way ends the push: no upload request follows.
pub proof fn lemma_create_failure_never_uploads<F>(args: PushArgs<F>, outcome: Result<Reply, Failure>)
    requires
        created(outcome) is Err,
    ensures
        push_next(args, PushStage::Create, outcome)
            == (PushStage::Finished, ActionView::<Seq<char>>::Finish(Err(created(outcome)->Err_0))),
{
}

/// A transport failure of the create request ends the push with that failure.
pub proof fn lemma_create_transport_failure<F>(args: PushArgs<F>, description: String)
    ensures
        push_next(args, PushStage::Create, Err(Failure::Transport(description)))
            == (PushStage::Finished,
                ActionView::<Seq<char>>::Finish(Err(ErrorView::Transport(description@)))),
{
}

/// Where the create succeeds and the upload fails, the create reply's raw body is
/// reported before the upload is sent, and only then does the push end in failure.
pub proof fn lemma_report_precedes_upload_failure<F>(
    args: PushArgs<F>,
    create_outcome: Result<Reply, Failure>,
    upload_outcome: Result<Reply, Failure>,
)
    requires
        created(create_outcome) is Ok,
        text_outcome(upload_outcome) is Err,
    ensures
        create_outcome matches Ok(reply) && reply.body matches Some(body)
            && push_next(args, PushStage::Create, create_outcome) == (
                PushStage::Upload(created(create_outcome)->Ok_0.1),
                ActionView::<Seq<char>>::ReportThenCall(
                    body@,
                    upload_request(args, created(create_outcome)->Ok_0.1),
                ),
            ),
        push_next(args, PushStage::Upload(created(create_outcome)->Ok_0.1), upload_outcome).1
            matches ActionView::Finish(Err(_)),
{
}

/// A failed upload ends the push with an error that names the created identifier,
/// and no failed create ever ends with an error of that form.
pub proof fn lemma_upload_failure_distinct<F>(
    args: PushArgs<F>,
    id: Seq<char>,
    create_outcome: Result<Reply, Failure>,
    upload_outcome: Result<Reply, Failure>,
)
    requires
        text_outcome(upload_outcome) is Err,
    ensures
        push_next(args, PushStage::Upload(id), upload_outcome)
            == (PushStage::Finished, ActionView::<Seq<char>>::Finish(Err(ErrorView::UploadFailed(
                id, Box::new(text_outcome(upload_outcome)->Err_0))))),
        !(push_next(args, PushStage::Create, create_outcome).1
            matches ActionView::Finish(Err(ErrorView::UploadFailed(_, _)))),
{
}

} // verus!
