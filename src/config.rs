use vstd::prelude::*;
use crate::request::{letter_matches, same_letter};
use crate::text::{char_vec, decimal_digits, push_decimal, push_text};

verus! {

/// Node inventory endpoint of the cluster API.
pub const NODES_ENDPOINT: &'static str = "/api/v1/nodes";

/// Node usage endpoint of the cluster API.
pub const NODE_METRICS_ENDPOINT: &'static str = "/apis/metrics.k8s.io/v1beta1/nodes";

/// Namespace list endpoint of the cluster API.
pub const NAMESPACES_ENDPOINT: &'static str = "/api/v1/namespaces";

/// Cluster API address used when none is configured.
pub const DEFAULT_KUBE_API_SERVER: &'static str = "https://localhost:6443";

/// Whether `v` spells `true`, ignoring ASCII case.
pub open spec fn is_true_text(v: Seq<char>) -> bool {
    v.len() == 4 && same_letter(v[0], 't') && same_letter(v[1], 'r') && same_letter(v[2], 'u')
        && same_letter(v[3], 'e')
}

/// Whether a production-mode setting switches production mode on: it reads
/// `true` in any case.
pub fn is_true_flag(v: &str) -> (r: bool)
    ensures
        r == is_true_text(v@),
{
    let c = char_vec(v);
    c.len() == 4 && letter_matches(c[0], 't') && letter_matches(c[1], 'r') && letter_matches(
        c[2],
        'u',
    ) && letter_matches(c[3], 'e')
}

/// The raw configuration values, each `None` where it is not set or could
/// not be read.
pub struct SettingsSource {
    pub openai_api_key: Option<String>,
    pub production_mode: Option<String>,
    pub chat_api_key: Option<String>,
    pub kube_api_server: Option<String>,
    /// The token from the process environment, used outside production.
    pub kube_token: Option<String>,
    /// The token from the mounted service account, used in production.
    pub kube_token_file: Option<String>,
}

/// The resolved configuration.
pub struct Settings {
    pub openai_api_key: String,
    pub production_mode: bool,
    pub chat_api_key: String,
    pub kube_api_server: String,
    pub kube_token: String,
}

pub open spec fn or_empty(o: Option<String>) -> Seq<char> {
    match o {
        Some(s) => s@,
        None => Seq::empty(),
    }
}

fn take_or_empty(o: Option<String>) -> (r: String)
    ensures
        r@ == or_empty(o),
{
    match o {
        Some(s) => s,
        None => String::new(),
    }
}

impl Settings {
    /// Resolves the configuration: a missing key or token is empty, a missing
    /// cluster address is the local default, and production mode takes the
    /// mounted token, other modes the one from the environment.
    pub fn resolve(source: SettingsSource) -> (r: Settings)
        ensures
            r.production_mode == (source.production_mode matches Some(v) && is_true_text(v@)),
            r.openai_api_key@ == or_empty(source.openai_api_key),
            r.chat_api_key@ == or_empty(source.chat_api_key),
            r.kube_api_server@ == match source.kube_api_server {
                Some(s) => s@,
                None => DEFAULT_KUBE_API_SERVER@,
            },
            r.kube_token@ == if r.production_mode {
                or_empty(source.kube_token_file)
            } else {
                or_empty(source.kube_token)
            },
    {
        let production_mode = match &source.production_mode {
            Some(v) => is_true_flag(v.as_str()),
            None => false,
        };
        let kube_api_server = match source.kube_api_server {
            Some(s) => s,
            None => DEFAULT_KUBE_API_SERVER.to_owned(),
        };
        let kube_token = if production_mode {
            take_or_empty(source.kube_token_file)
        } else {
            take_or_empty(source.kube_token)
        };
        Settings {
            openai_api_key: take_or_empty(source.openai_api_key),
            production_mode,
            chat_api_key: take_or_empty(source.chat_api_key),
            kube_api_server,
            kube_token,
        }
    }
}

/// An authenticated GET against the cluster API: where, and the value of the
/// `Authorization` header.
pub struct CatalogRequest {
    pub url: String,
    pub authorization: String,
}

/// The request for `endpoint` on the cluster API at `server`, carrying `token`.
pub fn catalog_request(server: &str, token: &str, endpoint: &str) -> (r: CatalogRequest)
    ensures
        r.url@ == server@ + endpoint@,
        r.authorization@ == "Bearer "@ + token@,
{
    let mut url = server.to_owned();
    push_text(&mut url, endpoint);
    let mut authorization = "Bearer ".to_owned();
    push_text(&mut authorization, token);
    CatalogRequest { url, authorization }
}

/// Namespace listed when none is given.
pub const DEFAULT_NAMESPACE: &'static str = "default";

/// Number of pods asked for when no limit is given.
pub const DEFAULT_POD_LIMIT: u32 = 500;

/// The arguments of the pod-listing tool.
pub struct ListPodsToolArgs {
    pub namespace: Option<String>,
    pub limit: Option<u32>,
}

pub open spec fn pods_endpoint_text(namespace: Seq<char>, limit: u32) -> Seq<char> {
    "/api/v1/namespaces/"@ + namespace + "/pods?limit="@ + decimal_digits(limit as nat)
}

impl ListPodsToolArgs {
    /// The endpoint that lists the pods asked for: the `default` namespace and
    /// a limit of 500 unless given.
    pub fn endpoint(&self) -> (r: String)
        ensures
            r@ == pods_endpoint_text(
                match self.namespace {
                    Some(n) => n@,
                    None => DEFAULT_NAMESPACE@,
                },
                match self.limit {
                    Some(l) => l,
                    None => DEFAULT_POD_LIMIT,
                },
            ),
    {
        let mut r = "/api/v1/namespaces/".to_owned();
        match &self.namespace {
            Some(n) => push_text(&mut r, n.as_str()),
            None => push_text(&mut r, DEFAULT_NAMESPACE),
        }
        push_text(&mut r, "/pods?limit=");
        let limit = match self.limit {
            Some(l) => l,
            None => DEFAULT_POD_LIMIT,
        };
        push_decimal(&mut r, limit as u64);
        r
    }
}

} // verus!
