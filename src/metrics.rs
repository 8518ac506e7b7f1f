use vstd::prelude::*;
use crate::quantity::{
    cpu_capacity_of, cpu_usage_of, memory_ki_of, parse_cpu_capacity, parse_cpu_nanocores,
    parse_memory_ki, Decimal, QuantityError,
};

verus! {

/// Node inventory, as listed by `GET /api/v1/nodes`.
pub struct NodeListResponse {
    pub items: Vec<Node>,
}

pub struct Node {
    pub metadata: NodeMetadata,
    pub status: NodeStatus,
}

pub struct NodeMetadata {
    pub name: String,
}

pub struct NodeStatus {
    pub capacity: NodeCapacity,
}

/// What a node offers: CPU as a plain core count, memory in kibibytes (`6026268Ki`).
pub struct NodeCapacity {
    pub cpu: String,
    pub memory: String,
}

/// Node usage, as listed by `GET /apis/metrics.k8s.io/v1beta1/nodes`.
pub struct NodeMetricsListResponse {
    pub items: Vec<NodeMetrics>,
}

pub struct NodeMetrics {
    pub metadata: NodeMetricsMetadata,
    pub usage: NodeUsage,
}

pub struct NodeMetricsMetadata {
    pub name: String,
}

/// What a node uses: CPU in nanocores (`160635734n`), memory in kibibytes (`1879200Ki`).
pub struct NodeUsage {
    pub cpu: String,
    pub memory: String,
}

/// The exact figures from which a node's utilization is derived:
/// CPU cores used are `cpu_nanocores / 10^9`, the CPU share is that over
/// `cpu_capacity`, and the memory share is `memory_ki / memory_capacity_ki`.
pub struct NodeUtilization {
    pub name: String,
    pub cpu_nanocores: u64,
    pub cpu_capacity: Decimal,
    pub memory_ki: u64,
    pub memory_capacity_ki: u64,
    /// `memory_ki` in bytes.
    pub memory_bytes: u64,
}

/// Why reconciliation failed; each variant carries the offending text.
pub enum MetricsError {
    /// A metrics entry names a node that the inventory does not list.
    MissingNode(String),
    InvalidCpuCapacity(String),
    InvalidMemory(String, QuantityError),
    InvalidCpuUsage(String, QuantityError),
    /// A memory usage whose byte count does not fit in 64 bits.
    MemoryTooLarge(String),
}

pub struct Utilization {
    pub name: Seq<char>,
    pub cpu_nanocores: u64,
    pub cpu_capacity: Decimal,
    pub memory_ki: u64,
    pub memory_capacity_ki: u64,
    pub memory_bytes: u64,
}

pub enum Fault {
    MissingNode(Seq<char>),
    InvalidCpuCapacity(Seq<char>),
    InvalidMemory(Seq<char>, QuantityError),
    InvalidCpuUsage(Seq<char>, QuantityError),
    MemoryTooLarge(Seq<char>),
}

impl View for NodeUtilization {
    type V = Utilization;

    open spec fn view(&self) -> Utilization {
        Utilization {
            name: self.name@,
            cpu_nanocores: self.cpu_nanocores,
            cpu_capacity: self.cpu_capacity,
            memory_ki: self.memory_ki,
            memory_capacity_ki: self.memory_capacity_ki,
            memory_bytes: self.memory_bytes,
        }
    }
}

impl View for MetricsError {
    type V = Fault;

    open spec fn view(&self) -> Fault {
        match self {
            MetricsError::MissingNode(s) => Fault::MissingNode(s@),
            MetricsError::InvalidCpuCapacity(s) => Fault::InvalidCpuCapacity(s@),
            MetricsError::InvalidMemory(s, q) => Fault::InvalidMemory(s@, *q),
            MetricsError::InvalidCpuUsage(s, q) => Fault::InvalidCpuUsage(s@, *q),
            MetricsError::MemoryTooLarge(s) => Fault::MemoryTooLarge(s@),
        }
    }
}

/// The utilization of `node` under the usage `metrics`, or the first figure
/// that does not parse (capacity CPU, capacity memory, usage CPU, usage memory).
pub open spec fn utilization_of(node: Node, metrics: NodeMetrics) -> Result<Utilization, Fault> {
    let cap = node.status.capacity;
    let usage = metrics.usage;
    match cpu_capacity_of(cap.cpu@) {
        Err(_) => Err(Fault::InvalidCpuCapacity(cap.cpu@)),
        Ok(c) => match memory_ki_of(cap.memory@) {
            Err(q) => Err(Fault::InvalidMemory(cap.memory@, q)),
            Ok(mc) => match cpu_usage_of(usage.cpu@) {
                Err(q) => Err(Fault::InvalidCpuUsage(usage.cpu@, q)),
                Ok(n) => match memory_ki_of(usage.memory@) {
                    Err(q) => Err(Fault::InvalidMemory(usage.memory@, q)),
                    Ok(mu) => if mu * 1024 > u64::MAX {
                        Err(Fault::MemoryTooLarge(usage.memory@))
                    } else {
                        Ok(
                            Utilization {
                                name: node.metadata.name@,
                                cpu_nanocores: n,
                                cpu_capacity: c,
                                memory_ki: mu,
                                memory_capacity_ki: mc,
                                memory_bytes: (mu * 1024) as u64,
                            },
                        )
                    },
                },
            },
        },
    }
}

pub open spec fn result_view<T: View, E: View>(r: Result<T, E>) -> Result<T::V, E::V> {
    match r {
        Ok(t) => Ok(t@),
        Err(e) => Err(e@),
    }
}

/// The index of the first node named `name` at or after `i`, or `nodes.len()`.
pub open spec fn node_index(nodes: Seq<Node>, name: Seq<char>, i: int) -> int
    decreases nodes.len() - i,
{
    if i >= nodes.len() {
        nodes.len() as int
    } else if nodes[i].metadata.name@ == name {
        i
    } else {
        node_index(nodes, name, i + 1)
    }
}

/// One metrics entry joined with the first inventory entry of the same name.
pub open spec fn joined_of(nodes: Seq<Node>, metrics: NodeMetrics) -> Result<Utilization, Fault> {
    let k = node_index(nodes, metrics.metadata.name@, 0);
    if k >= nodes.len() {
        Err(Fault::MissingNode(metrics.metadata.name@))
    } else {
        utilization_of(nodes[k], metrics)
    }
}

/// All metrics entries joined, in metrics order; the first failure aborts the whole.
pub open spec fn reconcile(metrics: Seq<NodeMetrics>, nodes: Seq<Node>) -> Result<
    Seq<Utilization>,
    Fault,
>
    decreases metrics.len(),
{
    if metrics.len() == 0 {
        Ok(Seq::empty())
    } else {
        match reconcile(metrics.drop_last(), nodes) {
            Err(f) => Err(f),
            Ok(us) => match joined_of(nodes, metrics.last()) {
                Err(f) => Err(f),
                Ok(u) => Ok(us.push(u)),
            },
        }
    }
}

impl NodeUtilization {
    /// Derives the utilization of `node` from `metrics`.
    pub fn from_node_and_metrics(node: &Node, metrics: &NodeMetrics) -> (r: Result<
        NodeUtilization,
        MetricsError,
    >)
        ensures
            result_view(r) == utilization_of(*node, *metrics),
    {
        let cap = &node.status.capacity;
        let usage = &metrics.usage;
        let cpu_capacity = match parse_cpu_capacity(cap.cpu.as_str()) {
            Ok(c) => c,
            Err(_) => {
                return Err(MetricsError::InvalidCpuCapacity(cap.cpu.clone()));
            },
        };
        let memory_capacity_ki = match parse_memory_ki(cap.memory.as_str()) {
            Ok(m) => m,
            Err(q) => {
                return Err(MetricsError::InvalidMemory(cap.memory.clone(), q));
            },
        };
        let cpu_nanocores = match parse_cpu_nanocores(usage.cpu.as_str()) {
            Ok(n) => n,
            Err(q) => {
                return Err(MetricsError::InvalidCpuUsage(usage.cpu.clone(), q));
            },
        };
        let memory_ki = match parse_memory_ki(usage.memory.as_str()) {
            Ok(m) => m,
            Err(q) => {
                return Err(MetricsError::InvalidMemory(usage.memory.clone(), q));
            },
        };
        if memory_ki > u64::MAX / 1024 {
            return Err(MetricsError::MemoryTooLarge(usage.memory.clone()));
        }
        Ok(
            NodeUtilization {
                name: node.metadata.name.clone(),
                cpu_nanocores,
                cpu_capacity,
                memory_ki,
                memory_capacity_ki,
                memory_bytes: memory_ki * 1024,
            },
        )
    }
}

proof fn lemma_node_index_bounds(nodes: Seq<Node>, name: Seq<char>, i: int)
    requires
        0 <= i <= nodes.len(),
    ensures
        i <= node_index(nodes, name, i) <= nodes.len(),
    decreases nodes.len() - i,
{
    if i < nodes.len() && nodes[i].metadata.name@ != name {
        lemma_node_index_bounds(nodes, name, i + 1);
    }
}

/// Finds the first node named `name`, or `nodes.len()`.
fn find_node(nodes: &Vec<Node>, name: &String) -> (r: usize)
    ensures
        r == node_index(nodes@, name@, 0),
        r <= nodes@.len(),
{
    proof {
        lemma_node_index_bounds(nodes@, name@, 0);
    }
    let mut i: usize = 0;
    while i < nodes.len()
        invariant
            i <= nodes@.len(),
            node_index(nodes@, name@, i as int) == node_index(nodes@, name@, 0),
        decreases nodes@.len() - i,
    {
        if nodes[i].metadata.name == *name {
            return i;
        }
        i = i + 1;
    }
    i
}

/// Once a prefix of the metrics fails, every longer prefix fails the same way.
proof fn lemma_reconcile_error_persists(metrics: Seq<NodeMetrics>, nodes: Seq<Node>, j: int)
    requires
        0 <= j <= metrics.len(),
        reconcile(metrics.take(j), nodes) is Err,
    ensures
        reconcile(metrics, nodes) == reconcile(metrics.take(j), nodes),
    decreases metrics.len() - j,
{
    if j < metrics.len() {
        assert(metrics.take(j + 1).drop_last() == metrics.take(j));
        lemma_reconcile_error_persists(metrics, nodes, j + 1);
    } else {
        assert(metrics.take(j) == metrics);
    }
}

/// A metrics entry whose name no inventory entry carries makes the whole
/// reconciliation fail: no shortened list is ever produced.
pub proof fn law_unmatched_metrics_fail(metrics: Seq<NodeMetrics>, nodes: Seq<Node>, k: int)
    requires
        0 <= k < metrics.len(),
        forall|j: int| 0 <= j < nodes.len() ==> nodes[j].metadata.name@ != metrics[k].metadata.name@,
    ensures
        reconcile(metrics, nodes) is Err,
{
    let name = metrics[k].metadata.name@;
    lemma_node_index_absent(nodes, name, 0);
    assert(metrics.take(k + 1).drop_last() == metrics.take(k));
    assert(metrics.take(k + 1).last() == metrics[k]);
    lemma_reconcile_error_persists(metrics, nodes, k + 1);
}

/// A successful reconciliation has one entry per metrics entry, in metrics
/// order, each named as that entry.
pub proof fn law_reconcile_keeps_every_entry(metrics: Seq<NodeMetrics>, nodes: Seq<Node>)
    requires
        reconcile(metrics, nodes) is Ok,
    ensures
        reconcile(metrics, nodes)->Ok_0.len() == metrics.len(),
        forall|i: int|
            0 <= i < metrics.len() ==> (#[trigger] reconcile(metrics, nodes)->Ok_0[i]).name
                == metrics[i].metadata.name@,
    decreases metrics.len(),
{
    if metrics.len() > 0 {
        let prefix = metrics.drop_last();
        law_reconcile_keeps_every_entry(prefix, nodes);
        let m = metrics.last();
        let k = node_index(nodes, m.metadata.name@, 0);
        lemma_node_index_bounds(nodes, m.metadata.name@, 0);
        lemma_node_index_found(nodes, m.metadata.name@, 0);
        let us = reconcile(metrics, nodes)->Ok_0;
        assert forall|i: int| 0 <= i < metrics.len() implies (#[trigger] us[i]).name
            == metrics[i].metadata.name@ by {
            if i < metrics.len() - 1 {
                assert(prefix[i] == metrics[i]);
            }
        }
    }
}

proof fn lemma_node_index_absent(nodes: Seq<Node>, name: Seq<char>, i: int)
    requires
        0 <= i <= nodes.len(),
        forall|j: int| 0 <= j < nodes.len() ==> nodes[j].metadata.name@ != name,
    ensures
        node_index(nodes, name, i) == nodes.len(),
    decreases nodes.len() - i,
{
    if i < nodes.len() {
        lemma_node_index_absent(nodes, name, i + 1);
    }
}

proof fn lemma_node_index_found(nodes: Seq<Node>, name: Seq<char>, i: int)
    requires
        0 <= i <= nodes.len(),
    ensures
        node_index(nodes, name, i) < nodes.len() ==> nodes[node_index(nodes, name, i)].metadata.name@
            == name,
    decreases nodes.len() - i,
{
    if i < nodes.len() && nodes[i].metadata.name@ != name {
        lemma_node_index_found(nodes, name, i + 1);
    }
}

impl NodeMetricsListResponse {
    /// Joins each metrics entry with the inventory entry of the same name and
    /// derives its utilization, in metrics order. A metrics entry without a
    /// matching node, or any figure that does not parse, fails the whole call.
    pub fn combine_with_nodes(&self, nodes: &NodeListResponse) -> (r: Result<
        Vec<NodeUtilization>,
        MetricsError,
    >)
        ensures
            match r {
                Ok(v) => reconcile(self.items@, nodes.items@) == Ok::<Seq<Utilization>, Fault>(
                    v@.map_values(|u: NodeUtilization| u@),
                ),
                Err(e) => reconcile(self.items@, nodes.items@) == Err::<Seq<Utilization>, Fault>(
                    e@,
                ),
            },
    {
        let mut items: Vec<NodeUtilization> = Vec::new();
        let mut i: usize = 0;
        assert(self.items@.take(0) =~= Seq::<NodeMetrics>::empty());
        assert(items@.map_values(|u: NodeUtilization| u@) =~= Seq::<Utilization>::empty());
        while i < self.items.len()
            invariant
                i <= self.items@.len(),
                reconcile(self.items@.take(i as int), nodes.items@) == Ok::<
                    Seq<Utilization>,
                    Fault,
                >(items@.map_values(|u: NodeUtilization| u@)),
            decreases self.items@.len() - i,
        {
            let metrics = &self.items[i];
            assert(self.items@.take(i + 1).drop_last() == self.items@.take(i as int));
            assert(self.items@.take(i + 1).last() == self.items@[i as int]);
            let k = find_node(&nodes.items, &metrics.metadata.name);
            if k == nodes.items.len() {
                proof {
                    lemma_reconcile_error_persists(self.items@, nodes.items@, i as int + 1);
                    assert(self.items@.take(self.items@.len() as int) == self.items@);
                }
                return Err(MetricsError::MissingNode(metrics.metadata.name.clone()));
            }
            match NodeUtilization::from_node_and_metrics(&nodes.items[k], metrics) {
                Ok(u) => {
                    let ghost before = items@;
                    items.push(u);
                    assert(items@.map_values(|u: NodeUtilization| u@) =~= before.map_values(
                        |u: NodeUtilization| u@,
                    ).push(u@));
                },
                Err(e) => {
                    proof {
                        lemma_reconcile_error_persists(self.items@, nodes.items@, i as int + 1);
                        assert(self.items@.take(self.items@.len() as int) == self.items@);
                    }
                    return Err(e);
                },
            }
            i = i + 1;
        }
        assert(self.items@.take(i as int) == self.items@);
        Ok(items)
    }
}

} // verus!
