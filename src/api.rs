//! The protocol client: the requests of each operation and what their replies mean.
//!
//! The client performs no I/O. Each operation yields the requests to perform;
//! a transport performs them and hands back what came of each. Push and bootstrap
//! take more than one request, so they are state machines: a step takes what came
//! of the last request and yields the next action.
use vstd::prelude::*;
use crate::error::{classify, failure_error, ErrorKind, ErrorView};
use crate::format::{api_name, ResponseFormat};
use crate::http::{push_pair, Delivery, Failure, HttpRequest, Method, PairView, Reply, RequestView};
use crate::ident::{reply_text, text_or_err};
use crate::text::join;
use crate::validate::{Lifetime, Prefix};

verus! {

/// Options that apply to every operation.
pub struct ClientOpts<'a> {
    /// The representation asked for with `Accept`; none is asked for where absent.
    pub response_format: &'a Option<ResponseFormat>,
}

impl<'a> ClientOpts<'a> {
    pub fn new(response_format: &'a Option<ResponseFormat>) -> (r: ClientOpts<'a>)
        ensures
            r.response_format == response_format,
    {
        ClientOpts { response_format }
    }
}

/// The payload of a push: bytes in memory, or an open file of known length.
pub enum InputMode<F> {
    Buffer(Vec<u8>),
    File(F, u64),
}

/// The exact size in bytes of a push payload.
pub open spec fn input_size<F>(input: &InputMode<F>) -> nat {
    match input {
        InputMode::Buffer(b) => b@.len(),
        InputMode::File(_, n) => *n as nat,
    }
}

impl<F> InputMode<F> {
    pub fn from_buffer(buf: Vec<u8>) -> (r: InputMode<F>)
        ensures
            r matches InputMode::Buffer(b) && b@ == buf@,
    {
        InputMode::Buffer(buf)
    }

    pub fn size(&self) -> (r: u64)
        ensures
            r as nat == input_size(self),
    {
        match self {
            InputMode::Buffer(b) => {
                let n: usize = b.len();
                n as u64
            },
            InputMode::File(_, n) => *n,
        }
    }
}

pub struct PushArgs<F> {
    pub api_key: String,
    pub endpoint: String,
    pub input: InputMode<F>,
    pub burn: Option<bool>,
    pub private: Option<bool>,
    pub pw: Option<String>,
    pub prefix: Option<Prefix>,
    pub lifetime: Option<Lifetime>,
}

pub struct PullArgs<W> {
    pub endpoint: String,
    pub id: Option<String>,
    pub api_key: Option<String>,
    pub pw: Option<String>,
    /// Where the pulled bytes go.
    pub output: W,
}

pub struct ListArgs {
    pub api_key: String,
    pub endpoint: String,
}

pub struct DeleteArgs {
    pub api_key: String,
    pub endpoint: String,
    pub id: String,
}

pub struct StatsArgs {
    pub api_key: String,
    pub endpoint: String,
}

pub struct BootstrapArgs {
    pub handle: String,
    pub password: String,
}

/// What bootstrap obtains: a new API key and the account's dataplane endpoint.
pub struct BootstrapResponse {
    pub api_key: String,
    pub dataplane_endpoint: String,
}

impl View for BootstrapResponse {
    type V = (Seq<char>, Seq<char>);

    open spec fn view(&self) -> (Seq<char>, Seq<char>) {
        (self.api_key@, self.dataplane_endpoint@)
    }
}

impl<F> PushArgs<F> {
    pub fn new(
        api_key: String,
        endpoint: String,
        input: InputMode<F>,
        burn: Option<bool>,
        private: Option<bool>,
        pw: Option<String>,
        prefix: Option<Prefix>,
        lifetime: Option<Lifetime>,
    ) -> (r: PushArgs<F>)
        ensures
            r.api_key == api_key,
            r.endpoint == endpoint,
            r.input == input,
            r.burn == burn,
            r.private == private,
            r.pw == pw,
            r.prefix == prefix,
            r.lifetime == lifetime,
    {
        PushArgs { api_key, endpoint, input, burn, private, pw, prefix, lifetime }
    }
}

impl<W> PullArgs<W> {
    pub fn new(
        endpoint: String,
        id: Option<String>,
        api_key: Option<String>,
        pw: Option<String>,
        output: W,
    ) -> (r: PullArgs<W>)
        ensures
            r.endpoint == endpoint,
            r.id == id,
            r.api_key == api_key,
            r.pw == pw,
            r.output == output,
    {
        PullArgs { endpoint, id, api_key, pw, output }
    }
}

impl ListArgs {
    pub fn new(api_key: String, endpoint: String) -> (r: ListArgs)
        ensures
            r.api_key == api_key,
            r.endpoint == endpoint,
    {
        ListArgs { api_key, endpoint }
    }
}

impl DeleteArgs {
    pub fn new(api_key: String, endpoint: String, id: String) -> (r: DeleteArgs)
        ensures
            r.api_key == api_key,
            r.endpoint == endpoint,
            r.id == id,
    {
        DeleteArgs { api_key, endpoint, id }
    }
}

impl StatsArgs {
    pub fn new(api_key: String, endpoint: String) -> (r: StatsArgs)
        ensures
            r.api_key == api_key,
            r.endpoint == endpoint,
    {
        StatsArgs { api_key, endpoint }
    }
}

impl BootstrapArgs {
    pub fn new(handle: String, password: String) -> (r: BootstrapArgs)
        ensures
            r.handle == handle,
            r.password == password,
    {
        BootstrapArgs { handle, password }
    }
}

/// The URL of an action: the endpoint, then the product segment, then the action,
/// with exactly one slash between endpoint and product.
pub open spec fn action_url(endpoint: Seq<char>, action: Seq<char>) -> Seq<char> {
    if endpoint.len() > 0 && endpoint.last() == '/' {
        endpoint + "scratch/"@ + action
    } else {
        endpoint + "/scratch/"@ + action
    }
}

/// The `Accept` header asked for by the options, if any.
pub open spec fn accept_headers(opts: ClientOpts) -> Seq<PairView> {
    match *opts.response_format {
        Some(f) => seq![("Accept"@, api_name(f))],
        None => seq![],
    }
}

/// The bearer authorization of an API key.
pub open spec fn bearer(api_key: Seq<char>) -> PairView {
    ("Authorization"@, "Bearer "@ + api_key)
}

/// A request with no body.
pub open spec fn plain_request(
    method: Method,
    url: Seq<char>,
    headers: Seq<PairView>,
    query: Seq<PairView>,
) -> RequestView {
    RequestView { method, url, headers, query, sends_input: false }
}

/// The URL of an action under an endpoint.
fn action_path(endpoint: &str, action: &str) -> (r: String)
    ensures
        r@ == action_url(endpoint@, action@),
{
    let n = endpoint.unicode_len();
    let mut path = String::from_str(endpoint);
    if n > 0 && endpoint.get_char(n - 1) == '/' {
        path.append("scratch/");
    } else {
        path.append("/scratch/");
    }
    path.append(action);
    path
}

/// A request for an action, with the `Accept` header where one is asked for.
pub(crate) fn request(method: Method, endpoint: &str, opts: &ClientOpts, action: &str) -> (r: HttpRequest)
    ensures
        r@ == plain_request(method, action_url(endpoint@, action@), accept_headers(*opts), seq![]),
{
    let url = action_path(endpoint, action);
    let mut headers: Vec<(String, String)> = Vec::new();
    match opts.response_format {
        Some(f) => {
            push_pair(&mut headers, "Accept", String::from_str(f.to_api_name()));
        },
        None => {},
    }
    let query: Vec<(String, String)> = Vec::new();
    let r = HttpRequest { method, url, headers, query, sends_input: false };
    assert(r@.headers =~= accept_headers(*opts));
    assert(r@.query =~= Seq::<PairView>::empty());
    r
}

/// Adds the bearer authorization of an API key to a request.
pub(crate) fn authorize(req: &mut HttpRequest, api_key: &str)
    ensures
        final(req)@ == (RequestView { headers: old(req)@.headers.push(bearer(api_key@)), ..old(req)@ }),
{
    push_pair(&mut req.headers, "Authorization", join("Bearer ", api_key));
}

/// The outcome of a request whose reply body is the result.
pub open spec fn text_outcome(outcome: Result<Reply, Failure>) -> Result<Seq<char>, ErrorView> {
    match outcome {
        Ok(reply) => reply_text(reply),
        Err(f) => Err(failure_error(f)),
    }
}

/// A `Result` of text as mathematical values.
pub open spec fn text_result_view(r: Result<String, ErrorKind>) -> Result<Seq<char>, ErrorView> {
    match r {
        Ok(t) => Ok(t@),
        Err(e) => Err(e@),
    }
}

/// The result of a request whose reply body is the result:
/// the body's text, or the classified failure.
pub fn text_result(outcome: Result<Reply, Failure>) -> (r: Result<String, ErrorKind>)
    ensures
        text_result_view(r) == text_outcome(outcome),
{
    match outcome {
        Ok(reply) => text_or_err(reply),
        Err(f) => Err(classify(f)),
    }
}

/// The request that lists the caller's files.
pub open spec fn list_request(args: ListArgs, opts: ClientOpts) -> RequestView {
    plain_request(Method::Get, action_url(args.endpoint@, "file"@),
        accept_headers(opts).push(bearer(args.api_key@)), seq![])
}

/// The request that deletes a file by identifier.
pub open spec fn delete_request(args: DeleteArgs) -> RequestView {
    plain_request(Method::Delete, action_url(args.endpoint@, "file/"@ + args.id@),
        seq![bearer(args.api_key@)], seq![])
}

/// The request for the account's usage stats.
pub open spec fn stats_request(args: StatsArgs, opts: ClientOpts) -> RequestView {
    plain_request(Method::Get, action_url(args.endpoint@, "me/stats"@),
        accept_headers(opts).push(bearer(args.api_key@)), seq![])
}

/// Lists file metadata: `GET .../file` with bearer authorization.
/// Its result is `text_result` of what came of the request.
pub fn list(args: ListArgs, opts: ClientOpts) -> (r: HttpRequest)
    ensures
        r@ == list_request(args, opts),
{
    let mut req = request(Method::Get, args.endpoint.as_str(), &opts, "file");
    authorize(&mut req, args.api_key.as_str());
    req
}

/// Deletes a file: `DELETE .../file/{id}` with bearer authorization and no `Accept`,
/// whatever format the options ask for.
/// Its result is `text_result` of what came of the request.
pub fn delete(args: DeleteArgs, _opts: ClientOpts) -> (r: HttpRequest)
    ensures
        r@ == delete_request(args),
{
    let no_format: Option<ResponseFormat> = None;
    let bare = ClientOpts::new(&no_format);
    let action = join("file/", args.id.as_str());
    let mut req = request(Method::Delete, args.endpoint.as_str(), &bare, action.as_str());
    authorize(&mut req, args.api_key.as_str());
    assert(req@.headers =~= seq![bearer(args.api_key@)]);
    req
}

/// Reads the account's usage stats: `GET .../me/stats` with bearer authorization.
/// Its result is `text_result` of what came of the request.
pub fn stats(args: StatsArgs, opts: ClientOpts) -> (r: HttpRequest)
    ensures
        r@ == stats_request(args, opts),
{
    let mut req = request(Method::Get, args.endpoint.as_str(), &opts, "me/stats");
    authorize(&mut req, args.api_key.as_str());
    req
}

/// The identifier that a pull asks for where none is given.
pub open spec fn default_id() -> Seq<char> {
    "latest"@
}

/// The identifier that a pull asks for.
pub open spec fn pulled_id(id: Option<String>) -> Seq<char> {
    match id {
        Some(i) => i@,
        None => default_id(),
    }
}

/// The request that pulls a file: bearer authorization only where an API key
/// is given, the password as a query parameter only where one is given.
pub open spec fn pull_request<W>(args: PullArgs<W>, opts: ClientOpts) -> RequestView {
    plain_request(
        Method::Get,
        action_url(args.endpoint@, "file/"@ + pulled_id(args.id)),
        match args.api_key {
            Some(k) => accept_headers(opts).push(bearer(k@)),
            None => accept_headers(opts),
        },
        match args.pw {
            Some(pw) => seq![("pw"@, pw@)],
            None => seq![],
        },
    )
}

/// A pull to perform: the request, and where the reply's bytes go.
pub struct PullCall<W> {
    pub request: HttpRequest,
    pub output: W,
}

/// Pulls a file: `GET .../file/{id}`, `latest` where no identifier is given.
/// The reply's body goes to the output as it arrives;
/// the result is `pull_result` of what came of that.
pub fn pull<W>(args: PullArgs<W>, opts: ClientOpts) -> (r: PullCall<W>)
    ensures
        r.request@ == pull_request(args, opts),
        r.output == args.output,
{
    let action = match &args.id {
        Some(id) => join("file/", id.as_str()),
        None => join("file/", "latest"),
    };
    let mut req = request(Method::Get, args.endpoint.as_str(), &opts, action.as_str());
    match &args.api_key {
        Some(k) => authorize(&mut req, k.as_str()),
        None => {},
    }
    match &args.pw {
        Some(pw) => {
            push_pair(&mut req.query, "pw", pw.clone());
            assert(req@.query =~= seq![("pw"@, pw@)]);
        },
        None => {},
    }
    PullCall { request: req, output: args.output }
}

/// The outcome of a pull, by what came of the request and of writing its body.
pub open spec fn pull_outcome(outcome: Result<Delivery, Failure>) -> Result<Seq<char>, ErrorView> {
    match outcome {
        Ok(Delivery::Written) => Ok(Seq::empty()),
        Ok(Delivery::WriteFailed(d)) => Err(ErrorView::LocalIoError(d@)),
        Err(f) => Err(failure_error(f)),
    }
}

/// The result of a pull: empty text once the bytes are written.
pub fn pull_result(outcome: Result<Delivery, Failure>) -> (r: Result<String, ErrorKind>)
    ensures
        text_result_view(r) == pull_outcome(outcome),
{
    match outcome {
        Ok(Delivery::Written) => Ok(String::new()),
        Ok(Delivery::WriteFailed(d)) => Err(ErrorKind::LocalIoError(d)),
        Err(f) => Err(classify(f)),
    }
}

/// The next thing a multi-request operation does.
pub enum Action<T> {
    /// Perform this request and hand back what came of it.
    Call(HttpRequest),
    /// Hand this text to the caller's reporter, then perform the request.
    ReportThenCall(String, HttpRequest),
    /// The operation is over, with this result.
    Finish(Result<T, ErrorKind>),
}

/// An `Action` as mathematical values.
pub enum ActionView<V> {
    Call(RequestView),
    ReportThenCall(Seq<char>, RequestView),
    Finish(Result<V, ErrorView>),
}

impl<T: View> View for Action<T> {
    type V = ActionView<T::V>;

    open spec fn view(&self) -> ActionView<T::V> {
        match self {
            Action::Call(r) => ActionView::Call(r@),
            Action::ReportThenCall(t, r) => ActionView::ReportThenCall(t@, r@),
            Action::Finish(Ok(v)) => ActionView::Finish(Ok(v@)),
            Action::Finish(Err(e)) => ActionView::Finish(Err(e@)),
        }
    }
}

/// An endpoint with or without a trailing slash gives the same URL for every action.
pub proof fn lemma_trailing_slash_normalized(endpoint: Seq<char>, action: Seq<char>)
    requires
        !(endpoint.len() > 0 && endpoint.last() == '/'),
    ensures
        action_url(endpoint.push('/'), action) == action_url(endpoint, action),
{
    reveal_strlit("scratch/");
    reveal_strlit("/scratch/");
    assert(endpoint.push('/') + "scratch/"@ + action =~= endpoint + "/scratch/"@ + action);
}

/// A pull without an identifier asks for the latest file.
pub proof fn lemma_pull_defaults_to_latest<W>(args: PullArgs<W>, opts: ClientOpts)
    requires
        args.id is None,
    ensures
        pull_request(args, opts).url == action_url(args.endpoint@, "file/latest"@),
{
    reveal_strlit("file/");
    reveal_strlit("latest");
    reveal_strlit("file/latest");
    assert("file/"@ + "latest"@ =~= "file/latest"@);
}

} // verus!
