//! Bootstrap: fetching a new API key and the account's dataplane endpoint
//! from the control plane with basic authorization.
use vstd::prelude::*;
use crate::api::{plain_request, text_outcome, text_result, Action, ActionView, BootstrapArgs, BootstrapResponse};
use crate::http::{push_pair, Failure, HttpRequest, Method, PairView, Reply, RequestView};
use crate::text::{join, trim_of, trim_str};

verus! {

/// The standard, padded base64 encoding of a text's UTF-8 bytes.
pub uninterp spec fn base64_standard(text: Seq<char>) -> Seq<char>;

/// Relies on `base64::encode_config` with `base64::STANDARD`: the padded standard
/// encoding of the UTF-8 bytes. The bound keeps its size computation from overflowing.
#[verifier::external_body]
fn base64_text(s: &str) -> (r: String)
    requires
        s@.len() <= usize::MAX / 8,
    ensures
        r@ == base64_standard(s@),
{
    base64::encode_config(s.as_bytes(), base64::STANDARD)
}

/// The control-plane location under which bootstrap fetches each value.
pub const BOOTSTRAP_URL: &'static str = "https://kilobytetools.io/bootstrap/";

/// Whether the handle and password are short enough to encode.
pub open spec fn credentials_fit(args: BootstrapArgs) -> bool {
    args.handle@.len() + 1 + args.password@.len() <= usize::MAX / 8
}

/// The basic authorization of a handle and password.
pub open spec fn basic_auth(args: BootstrapArgs) -> PairView {
    ("Authorization"@, "Basic "@ + base64_standard(args.handle@ + ":"@ + args.password@))
}

/// The request that fetches one bootstrap value.
pub open spec fn bootstrap_request(args: BootstrapArgs, component: Seq<char>) -> RequestView {
    plain_request(Method::Get, BOOTSTRAP_URL@ + component, seq![basic_auth(args)], seq![])
}

/// Where a bootstrap stands.
pub enum BootstrapPhase {
    /// The API key is being fetched.
    ApiKey,
    /// The endpoint is being fetched; the API key obtained.
    Endpoint(String),
    /// The bootstrap is over.
    Finished,
}

/// A `BootstrapPhase` as mathematical values.
pub enum BootstrapStage {
    ApiKey,
    Endpoint(Seq<char>),
    Finished,
}

impl View for BootstrapPhase {
    type V = BootstrapStage;

    open spec fn view(&self) -> BootstrapStage {
        match self {
            BootstrapPhase::ApiKey => BootstrapStage::ApiKey,
            BootstrapPhase::Endpoint(k) => BootstrapStage::Endpoint(k@),
            BootstrapPhase::Finished => BootstrapStage::Finished,
        }
    }
}

/// What a bootstrap does next: each reply's trimmed body is a value,
/// and the first failure ends it with no partial result.
pub open spec fn bootstrap_next(
    args: BootstrapArgs,
    stage: BootstrapStage,
    outcome: Result<Reply, Failure>,
) -> (BootstrapStage, ActionView<(Seq<char>, Seq<char>)>) {
    match text_outcome(outcome) {
        Err(e) => (BootstrapStage::Finished, ActionView::Finish(Err(e))),
        Ok(t) => match stage {
            BootstrapStage::Endpoint(k) => (
                BootstrapStage::Finished,
                ActionView::Finish(Ok((k, trim_of(t)))),
            ),
            _ => (
                BootstrapStage::Endpoint(trim_of(t)),
                ActionView::Call(bootstrap_request(args, "dataplane_endpoint"@)),
            ),
        },
    }
}

/// The request for one bootstrap value.
fn bootstrap_call(args: &BootstrapArgs, component: &str) -> (r: HttpRequest)
    requires
        credentials_fit(*args),
    ensures
        r@ == bootstrap_request(*args, component@),
{
    let mut credentials = join(args.handle.as_str(), ":");
    credentials.append(args.password.as_str());
    proof {
        reveal_strlit(":");
    }
    let encoded = base64_text(credentials.as_str());
    let mut headers: Vec<(String, String)> = Vec::new();
    push_pair(&mut headers, "Authorization", join("Basic ", encoded.as_str()));
    let r = HttpRequest {
        method: Method::Get,
        url: join(BOOTSTRAP_URL, component),
        headers,
        query: Vec::new(),
        sends_input: false,
    };
    assert(r@.headers =~= seq![basic_auth(*args)]);
    assert(r@.query =~= Seq::<PairView>::empty());
    r
}

/// Starts a bootstrap: `GET` of the API key with basic authorization.
pub fn bootstrap(args: &BootstrapArgs) -> (r: (BootstrapPhase, Action<BootstrapResponse>))
    requires
        credentials_fit(*args),
    ensures
        r.0@ == BootstrapStage::ApiKey,
        r.1@ == ActionView::<(Seq<char>, Seq<char>)>::Call(bootstrap_request(*args, "api_key"@)),
{
    (BootstrapPhase::ApiKey, Action::Call(bootstrap_call(args, "api_key")))
}

/// Advances a bootstrap by what came of the request that was out.
pub fn bootstrap_step(
    args: &BootstrapArgs,
    phase: BootstrapPhase,
    outcome: Result<Reply, Failure>,
) -> (r: (BootstrapPhase, Action<BootstrapResponse>))
    requires
        credentials_fit(*args),
        !(phase is Finished),
    ensures
        (r.0@, r.1@) == bootstrap_next(*args, phase@, outcome),
{
    let text = match text_result(outcome) {
        Ok(t) => t,
        Err(e) => { return (BootstrapPhase::Finished, Action::Finish(Err(e))); },
    };
    let value = String::from_str(trim_str(text.as_str()));
    match phase {
        BootstrapPhase::Endpoint(api_key) => (
            BootstrapPhase::Finished,
            Action::Finish(Ok(BootstrapResponse { api_key, dataplane_endpoint: value })),
        ),
        _ => (
            BootstrapPhase::Endpoint(value),
            Action::Call(bootstrap_call(args, "dataplane_endpoint")),
        ),
    }
}

} // verus!
