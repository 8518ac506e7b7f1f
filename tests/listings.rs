use agent_gateway::config::{
    catalog_request, is_true_flag, ListPodsToolArgs, Settings, SettingsSource, NODES_ENDPOINT,
};
use agent_gateway::namespaces::{NamespaceItem, NamespaceListResponse, NamespaceMetadata};
use agent_gateway::pods::{
    ContainerSpec, Pod, PodCondition, PodListResponse, PodMetadata, PodSpec, PodSpecStatus,
};
use agent_gateway::profile::{get_portfolio_host, profile_urls, ProfileUrl};

fn namespace(name: &str) -> NamespaceItem {
    NamespaceItem { metadata: NamespaceMetadata { name: name.to_string() } }
}

fn metadata(name: &str, labels: Option<Vec<(String, String)>>) -> PodMetadata {
    PodMetadata {
        name: name.to_string(),
        namespace: "default".to_string(),
        uid: "u-1".to_string(),
        creation_timestamp: "2024-01-01T00:00:00Z".to_string(),
        labels,
    }
}

#[test]
fn namespaces_are_joined() {
    let list = NamespaceListResponse {
        items: vec![namespace("default"), namespace("kube-system"), namespace("web")],
    };
    assert_eq!(list.as_string(), "default, kube-system, web");
    assert_eq!(NamespaceListResponse { items: vec![] }.as_string(), "");
    assert_eq!(NamespaceListResponse { items: vec![namespace("one")] }.as_string(), "one");
}

#[test]
fn pods_are_listed_in_full() {
    let pod = Pod {
        metadata: metadata("web-1", Some(vec![("app".to_string(), "web".to_string())])),
        spec: Some(PodSpec {
            containers: vec![ContainerSpec { name: "nginx".to_string() }],
            node_name: None,
        }),
        status: Some(PodSpecStatus {
            phase: "Running".to_string(),
            conditions: Some(vec![PodCondition {
                type_field: "Ready".to_string(),
                status: "True".to_string(),
                last_probe_time: None,
                last_transition_time: None,
            }]),
            start_time: Some("2024-01-01T00:00:05Z".to_string()),
        }),
    };
    let bare = Pod { metadata: metadata("db-0", None), spec: None, status: None };
    let list = PodListResponse { items: vec![pod, bare] };
    let expected = [
        "Found 2 pods:\n\n",
        "Pod 1:\n",
        "  Name: web-1\n",
        "  Namespace: default\n",
        "  UID: u-1\n",
        "  Created: 2024-01-01T00:00:00Z\n",
        "  Labels:\n",
        "    app: web\n",
        "  Node: N/A\n",
        "  Containers:\n",
        "    - nginx\n",
        "  Phase: Running\n",
        "  Started: 2024-01-01T00:00:05Z\n",
        "  Conditions:\n",
        "    Ready: True\n",
        "\n",
        "Pod 2:\n",
        "  Name: db-0\n",
        "  Namespace: default\n",
        "  UID: u-1\n",
        "  Created: 2024-01-01T00:00:00Z\n",
        "\n",
    ]
    .concat();
    assert_eq!(list.as_string(), expected);
}

#[test]
fn empty_pod_list() {
    assert_eq!(PodListResponse { items: vec![] }.as_string(), "Found 0 pods:\n\n");
}

#[test]
fn profile_addresses() {
    assert_eq!(get_portfolio_host(true), "https://about.calum.run");
    assert_eq!(get_portfolio_host(false), "http://localhost:3000");
    assert_eq!(ProfileUrl::Work.as_url(true), "https://about.calum.run/?tab=Work");
    assert_eq!(ProfileUrl::Contact.as_url(false), "http://localhost:3000/?tab=Contact");
    let urls = profile_urls(false);
    assert_eq!(
        urls,
        vec![
            "http://localhost:3000/?tab=About".to_string(),
            "http://localhost:3000/?tab=Work".to_string(),
            "http://localhost:3000/?tab=Projects".to_string(),
            "http://localhost:3000/?tab=Contact".to_string(),
        ]
    );
}

#[test]
fn profile_address_recognised_under_either_host() {
    assert_eq!(
        ProfileUrl::from_url("https://about.calum.run/?tab=Projects"),
        Some(ProfileUrl::Projects)
    );
    assert_eq!(ProfileUrl::from_url("http://localhost:3000/?tab=About"), Some(ProfileUrl::About));
    assert_eq!(ProfileUrl::from_url("https://about.calum.run/?tab=Blog"), None);
    assert_eq!(ProfileUrl::from_url("https://example.com/?tab=Work"), None);
}

#[test]
fn pod_endpoint_defaults() {
    let args = ListPodsToolArgs { namespace: None, limit: None };
    assert_eq!(args.endpoint(), "/api/v1/namespaces/default/pods?limit=500");
    let args = ListPodsToolArgs { namespace: Some("web".to_string()), limit: Some(5) };
    assert_eq!(args.endpoint(), "/api/v1/namespaces/web/pods?limit=5");
}

#[test]
fn catalog_request_carries_the_token() {
    let r = catalog_request("https://k8s:6443", "tok", NODES_ENDPOINT);
    assert_eq!(r.url, "https://k8s:6443/api/v1/nodes");
    assert_eq!(r.authorization, "Bearer tok");
}

#[test]
fn production_flag() {
    assert!(is_true_flag("true"));
    assert!(is_true_flag("TRUE"));
    assert!(is_true_flag("True"));
    assert!(!is_true_flag("yes"));
    assert!(!is_true_flag("true "));
    assert!(!is_true_flag(""));
}

#[test]
fn settings_defaults_and_token_choice() {
    let s = Settings::resolve(SettingsSource {
        openai_api_key: None,
        production_mode: None,
        chat_api_key: Some("c".to_string()),
        kube_api_server: None,
        kube_token: Some("env-token".to_string()),
        kube_token_file: Some("file-token".to_string()),
    });
    assert!(!s.production_mode);
    assert_eq!(s.openai_api_key, "");
    assert_eq!(s.chat_api_key, "c");
    assert_eq!(s.kube_api_server, "https://localhost:6443");
    assert_eq!(s.kube_token, "env-token");
    let s = Settings::resolve(SettingsSource {
        openai_api_key: Some("o".to_string()),
        production_mode: Some("True".to_string()),
        chat_api_key: None,
        kube_api_server: Some("https://api".to_string()),
        kube_token: Some("env-token".to_string()),
        kube_token_file: None,
    });
    assert!(s.production_mode);
    assert_eq!(s.kube_api_server, "https://api");
    assert_eq!(s.kube_token, "");
}
