use vstd::prelude::*;
use crate::text::{decimal_digits, push_decimal, push_text};

verus! {

pub struct PodMetadata {
    pub name: String,
    pub namespace: String,
    pub uid: String,
    pub creation_timestamp: String,
    /// Label keys and values, in the order they are to be listed.
    pub labels: Option<Vec<(String, String)>>,
}

pub struct ContainerSpec {
    pub name: String,
}

pub struct PodCondition {
    pub type_field: String,
    pub status: String,
    pub last_probe_time: Option<String>,
    pub last_transition_time: Option<String>,
}

pub struct PodSpecStatus {
    pub phase: String,
    pub conditions: Option<Vec<PodCondition>>,
    pub start_time: Option<String>,
}

pub struct PodSpec {
    pub containers: Vec<ContainerSpec>,
    pub node_name: Option<String>,
}

pub struct Pod {
    pub metadata: PodMetadata,
    pub spec: Option<PodSpec>,
    pub status: Option<PodSpecStatus>,
}

/// Pods, as listed by `GET /api/v1/namespaces/<namespace>/pods`.
pub struct PodListResponse {
    pub items: Vec<Pod>,
}

/// `label`, then `value`, then a line break.
pub open spec fn text_line(label: Seq<char>, value: Seq<char>) -> Seq<char> {
    label + value + "\n"@
}

pub open spec fn labels_text(labels: Seq<(String, String)>) -> Seq<char>
    decreases labels.len(),
{
    if labels.len() == 0 {
        Seq::empty()
    } else {
        let (k, v) = labels.last();
        labels_text(labels.drop_last()) + "    "@ + k@ + ": "@ + v@ + "\n"@
    }
}

pub open spec fn containers_text(cs: Seq<ContainerSpec>) -> Seq<char>
    decreases cs.len(),
{
    if cs.len() == 0 {
        Seq::empty()
    } else {
        containers_text(cs.drop_last()) + text_line("    - "@, cs.last().name@)
    }
}

pub open spec fn conditions_text(cs: Seq<PodCondition>) -> Seq<char>
    decreases cs.len(),
{
    if cs.len() == 0 {
        Seq::empty()
    } else {
        conditions_text(cs.drop_last()) + "    "@ + cs.last().type_field@ + ": "@
            + cs.last().status@ + "\n"@
    }
}

pub open spec fn spec_text(spec: Option<PodSpec>) -> Seq<char> {
    match spec {
        None => Seq::empty(),
        Some(s) => text_line(
            "  Node: "@,
            match s.node_name {
                Some(n) => n@,
                None => "N/A"@,
            },
        ) + "  Containers:\n"@ + containers_text(s.containers@),
    }
}

pub open spec fn status_text(status: Option<PodSpecStatus>) -> Seq<char> {
    match status {
        None => Seq::empty(),
        Some(s) => text_line("  Phase: "@, s.phase@) + match s.start_time {
            Some(t) => text_line("  Started: "@, t@),
            None => Seq::empty(),
        } + match s.conditions {
            Some(cs) => "  Conditions:\n"@ + conditions_text(cs@),
            None => Seq::empty(),
        },
    }
}

/// The description of the pod listed `number`-th.
pub open spec fn pod_text(pod: Pod, number: nat) -> Seq<char> {
    text_line("Pod "@, decimal_digits(number) + ":"@) + metadata_text(pod.metadata) + spec_text(
        pod.spec,
    ) + status_text(pod.status) + "\n"@
}

/// The descriptions of the first `k` pods, numbered from one.
pub open spec fn pods_text(pods: Seq<Pod>, k: nat) -> Seq<char>
    decreases k,
{
    if k == 0 {
        Seq::empty()
    } else {
        pods_text(pods, (k - 1) as nat) + pod_text(pods[k - 1], k)
    }
}

/// The whole listing: a count, then each pod in order.
pub open spec fn pod_list_text(pods: Seq<Pod>) -> Seq<char> {
    "Found "@ + decimal_digits(pods.len()) + " pods:\n\n"@ + pods_text(pods, pods.len())
}

fn push_line(out: &mut String, label: &str, value: &str)
    ensures
        final(out)@ == old(out)@ + text_line(label@, value@),
{
    push_text(out, label);
    push_text(out, value);
    push_text(out, "\n");
}

fn push_labels(out: &mut String, labels: &Vec<(String, String)>)
    ensures
        final(out)@ == old(out)@ + labels_text(labels@),
{
    let ghost start = out@;
    let mut i: usize = 0;
    while i < labels.len()
        invariant
            i <= labels@.len(),
            out@ == start + labels_text(labels@.take(i as int)),
        decreases labels@.len() - i,
    {
        let (k, v) = &labels[i];
        push_text(out, "    ");
        push_text(out, k.as_str());
        push_text(out, ": ");
        push_text(out, v.as_str());
        push_text(out, "\n");
        assert(labels@.take(i + 1).drop_last() == labels@.take(i as int));
        i = i + 1;
    }
    assert(labels@.take(i as int) == labels@);
}

fn push_containers(out: &mut String, cs: &Vec<ContainerSpec>)
    ensures
        final(out)@ == old(out)@ + containers_text(cs@),
{
    let ghost start = out@;
    let mut i: usize = 0;
    while i < cs.len()
        invariant
            i <= cs@.len(),
            out@ == start + containers_text(cs@.take(i as int)),
        decreases cs@.len() - i,
    {
        push_line(out, "    - ", cs[i].name.as_str());
        assert(cs@.take(i + 1).drop_last() == cs@.take(i as int));
        i = i + 1;
    }
    assert(cs@.take(i as int) == cs@);
}

fn push_conditions(out: &mut String, cs: &Vec<PodCondition>)
    ensures
        final(out)@ == old(out)@ + conditions_text(cs@),
{
    let ghost start = out@;
    let mut i: usize = 0;
    while i < cs.len()
        invariant
            i <= cs@.len(),
            out@ == start + conditions_text(cs@.take(i as int)),
        decreases cs@.len() - i,
    {
        push_text(out, "    ");
        push_text(out, cs[i].type_field.as_str());
        push_text(out, ": ");
        push_text(out, cs[i].status.as_str());
        push_text(out, "\n");
        assert(cs@.take(i + 1).drop_last() == cs@.take(i as int));
        i = i + 1;
    }
    assert(cs@.take(i as int) == cs@);
}

pub open spec fn metadata_text(m: PodMetadata) -> Seq<char> {
    text_line("  Name: "@, m.name@) + text_line("  Namespace: "@, m.namespace@) + text_line(
        "  UID: "@,
        m.uid@,
    ) + text_line("  Created: "@, m.creation_timestamp@) + match m.labels {
        Some(ls) => "  Labels:\n"@ + labels_text(ls@),
        None => Seq::empty(),
    }
}

fn push_metadata(out: &mut String, m: &PodMetadata)
    ensures
        final(out)@ == old(out)@ + metadata_text(*m),
{
    push_line(out, "  Name: ", m.name.as_str());
    push_line(out, "  Namespace: ", m.namespace.as_str());
    push_line(out, "  UID: ", m.uid.as_str());
    push_line(out, "  Created: ", m.creation_timestamp.as_str());
    if let Some(labels) = &m.labels {
        push_text(out, "  Labels:\n");
        push_labels(out, labels);
    }
}

fn push_spec(out: &mut String, spec: &Option<PodSpec>)
    ensures
        final(out)@ == old(out)@ + spec_text(*spec),
{
    if let Some(spec) = spec {
        match &spec.node_name {
            Some(n) => push_line(out, "  Node: ", n.as_str()),
            None => push_line(out, "  Node: ", "N/A"),
        }
        push_text(out, "  Containers:\n");
        push_containers(out, &spec.containers);
    }
}

fn push_status(out: &mut String, status: &Option<PodSpecStatus>)
    ensures
        final(out)@ == old(out)@ + status_text(*status),
{
    if let Some(status) = status {
        push_line(out, "  Phase: ", status.phase.as_str());
        if let Some(t) = &status.start_time {
            push_line(out, "  Started: ", t.as_str());
        }
        if let Some(cs) = &status.conditions {
            push_text(out, "  Conditions:\n");
            push_conditions(out, cs);
        }
    }
}

fn push_pod(out: &mut String, pod: &Pod, number: u64)
    ensures
        final(out)@ == old(out)@ + pod_text(*pod, number as nat),
{
    push_text(out, "Pod ");
    push_decimal(out, number);
    push_text(out, ":");
    push_text(out, "\n");
    push_metadata(out, &pod.metadata);
    push_spec(out, &pod.spec);
    push_status(out, &pod.status);
    push_text(out, "\n");
}

impl PodListResponse {
    /// A readable listing of the pods: a count, then for each pod, numbered
    /// from one, its metadata, labels, node, containers, phase and conditions.
    pub fn as_string(&self) -> (r: String)
        ensures
            r@ == pod_list_text(self.items@),
    {
        let mut out = String::new();
        push_text(&mut out, "Found ");
        push_decimal(&mut out, self.items.len() as u64);
        push_text(&mut out, " pods:\n\n");
        let ghost head = out@;
        let mut i: usize = 0;
        while i < self.items.len()
            invariant
                i <= self.items@.len(),
                out@ == head + pods_text(self.items@, i as nat),
            decreases self.items@.len() - i,
        {
            push_pod(&mut out, &self.items[i], i as u64 + 1);
            i = i + 1;
        }
        out
    }
}

} // verus!
