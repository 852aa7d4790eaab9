//! The labels that every metric of this node carries, and the bookkeeping
//! of the task that keeps the metrics registry tidy.

use vstd::prelude::*;
use vstd::string::StringExecFns;
use metrics_exporter_prometheus::PrometheusHandle;
use crate::identifiers::PlainNodeId;

verus! {

/// The handle of an installed Prometheus recorder.
#[verifier::external_type_specification]
#[verifier::external_body]
pub struct ExPrometheusHandle(metrics_exporter_prometheus::PrometheusHandle);

/// How many seconds pass between two runs of the upkeep.
pub const UPKEEP_INTERVAL_SECS: u64 = 5;

/// What `metrics_exporter_prometheus::formatting::sanitize_label_value`
/// makes of a label value.
pub uninterp spec fn sanitized_label_value(value: Seq<char>) -> Seq<char>;

/// Calls `metrics_exporter_prometheus::formatting::sanitize_label_value`,
/// which escapes what a label value may not hold as it is. The result
/// depends on the value alone.
#[verifier::external_body]
fn sanitize_label_value(value: &str) -> (sanitized: String)
    ensures
        sanitized@ == sanitized_label_value(value@),
{
    metrics_exporter_prometheus::formatting::sanitize_label_value(value)
}

/// The character that stands for a digit below ten.
pub open spec fn digit(d: nat) -> char {
    if d == 0 {
        '0'
    } else if d == 1 {
        '1'
    } else if d == 2 {
        '2'
    } else if d == 3 {
        '3'
    } else if d == 4 {
        '4'
    } else if d == 5 {
        '5'
    } else if d == 6 {
        '6'
    } else if d == 7 {
        '7'
    } else if d == 8 {
        '8'
    } else {
        '9'
    }
}

/// A number in decimal digits, without leading zeros.
pub open spec fn decimal(n: nat) -> Seq<char>
    decreases n,
{
    if n < 10 {
        seq![digit(n)]
    } else {
        decimal(n / 10).push(digit(n % 10))
    }
}

/// Calls `to_string` of std on a `u32`, which writes the number in decimal
/// digits without sign or leading zeros.
#[verifier::external_body]
fn u32_to_string(n: u32) -> (text: String)
    ensures
        text@ == decimal(n as nat),
{
    n.to_string()
}

/// The label `key="value"`, the value sanitized.
pub open spec fn label(key: Seq<char>, value: Seq<char>) -> Seq<char> {
    key + "=\""@ + sanitized_label_value(value) + "\""@
}

/// A node's plain id as it is written: `N` and the number.
pub open spec fn plain_node_name(node_id: PlainNodeId) -> Seq<char> {
    "N"@ + decimal(node_id.0 as nat)
}

/// The labels of a node that was told its cluster and its name.
pub open spec fn static_labels_of(cluster_name: Seq<char>, node_name: Seq<char>) -> Seq<Seq<char>> {
    seq![label("cluster_name"@, cluster_name), label("node_name"@, node_name)]
}

/// What the labels in `labels` say, one after the other.
pub open spec fn texts(labels: Seq<String>) -> Seq<Seq<char>> {
    labels.map_values(|l: String| l@)
}

/// Writes the label `key="value"` around a value that is sanitized already.
pub fn quoted_label(key: &str, sanitized: &str) -> (text: String)
    ensures
        text@ == key@ + "=\""@ + sanitized@ + "\""@,
{
    let mut text = key.to_owned();
    text.append("=\"");
    text.append(sanitized);
    text.append("\"");
    text
}

/// Writes the label `key="value"`, the value sanitized.
pub fn format_label(key: &str, value: &str) -> (text: String)
    ensures
        text@ == label(key@, value@),
{
    let sanitized = sanitize_label_value(value);
    quoted_label(key, sanitized.as_str())
}

/// What is to be done about the upkeep task.
#[derive(Clone, Copy, Debug, PartialEq, Eq, Structural)]
pub struct UpkeepPlan {
    /// The task that runs is to be aborted.
    pub abort_running: bool,
    /// A new task is to be started.
    pub start_new: bool,
}

/// The metrics of this node: the recorder's handle, whether the upkeep task
/// runs, and the labels.
#[derive(Debug)]
pub struct Prometheus {
    pub handle: Option<PrometheusHandle>,
    pub upkeep_running: bool,
    pub static_labels: Vec<String>,
    /// The labels with the node's id, once the id was known.
    pub global_labels: Option<Vec<String>>,
}

impl Prometheus {
    /// The metrics of a node without recorder: no handle, no labels.
    pub fn disabled() -> (prometheus: Self)
        ensures
            prometheus.handle is None,
            !prometheus.upkeep_running,
            prometheus.static_labels@ == Seq::<String>::empty(),
            prometheus.global_labels is None,
    {
        Prometheus {
            handle: None,
            upkeep_running: false,
            static_labels: Vec::new(),
            global_labels: None,
        }
    }

    /// The metrics of a node whose recorder was installed, or of one without
    /// recorder where `handle` is none. With a recorder the labels name the
    /// cluster and the node. The upkeep task is not started by this.
    pub fn install(handle: Option<PrometheusHandle>, cluster_name: &str, node_name: &str) -> (prometheus:
        Self)
        ensures
            prometheus.handle == handle,
            !prometheus.upkeep_running,
            prometheus.global_labels is None,
            handle is None ==> prometheus.static_labels@ == Seq::<String>::empty(),
            handle is Some ==> texts(prometheus.static_labels@) == static_labels_of(
                cluster_name@,
                node_name@,
            ),
    {
        if handle.is_none() {
            return Prometheus {
                handle,
                upkeep_running: false,
                static_labels: Vec::new(),
                global_labels: None,
            };
        }
        let mut static_labels: Vec<String> = Vec::new();
        static_labels.push(format_label("cluster_name", cluster_name));
        static_labels.push(format_label("node_name", node_name));
        assert(texts(static_labels@) =~= static_labels_of(cluster_name@, node_name@));
        Prometheus { handle, upkeep_running: false, static_labels, global_labels: None }
    }

    pub fn handle(&self) -> (handle: Option<&PrometheusHandle>)
        ensures
            handle matches Some(h) ==> self.handle == Some(*h),
            handle is None <==> self.handle is None,
    {
        self.handle.as_ref()
    }

    /// The labels of every metric. Once the node's id is known, the labels
    /// hold it as well, and stay as they are from then on; until then they
    /// are the static ones.
    pub fn global_labels(&mut self, node_id: Option<PlainNodeId>) -> (labels: &Vec<String>)
        ensures
            final(self).handle == old(self).handle,
            final(self).upkeep_running == old(self).upkeep_running,
            final(self).static_labels == old(self).static_labels,
            old(self).global_labels matches Some(known) ==> {
                &&& final(self).global_labels == old(self).global_labels
                &&& *labels == known
            },
            old(self).global_labels is None && node_id is None ==> {
                &&& final(self).global_labels is None
                &&& *labels == old(self).static_labels
            },
            old(self).global_labels is None && node_id is Some ==> {
                &&& final(self).global_labels == Some(*labels)
                &&& texts(labels@) == texts(old(self).static_labels@).push(
                    label("node_id"@, plain_node_name(node_id->0)),
                )
            },
    {
        if self.global_labels.is_none() {
            match node_id {
                None => {
                    return &self.static_labels;
                },
                Some(id) => {
                    let mut labels: Vec<String> = Vec::new();
                    let mut i: usize = 0;
                    while i < self.static_labels.len()
                        invariant
                            i <= self.static_labels.len(),
                            labels@.len() == i,
                            texts(labels@) == texts(self.static_labels@).subrange(0, i as int),
                        decreases self.static_labels.len() - i,
                    {
                        let ghost copied = labels@;
                        labels.push(self.static_labels[i].clone());
                        assert forall|j: int| 0 <= j <= i implies texts(labels@)[j] == texts(
                            self.static_labels@,
                        )[j] by {
                            if j < i {
                                assert(texts(copied)[j] == texts(self.static_labels@).subrange(
                                    0,
                                    i as int,
                                )[j]);
                            }
                        }
                        assert(texts(labels@) =~= texts(self.static_labels@).subrange(
                            0,
                            i as int + 1,
                        ));
                        i += 1;
                    }
                    let ghost copied = labels@;
                    assert(texts(copied) =~= texts(self.static_labels@));
                    let mut plain_node_id = "N".to_owned();
                    let number = u32_to_string(id.0);
                    plain_node_id.append(number.as_str());
                    labels.push(format_label("node_id", plain_node_id.as_str()));
                    assert forall|j: int| 0 <= j < copied.len() implies texts(labels@)[j] == texts(
                        copied,
                    )[j] by {}
                    assert(texts(labels@) =~= texts(self.static_labels@).push(
                        label("node_id"@, plain_node_name(id)),
                    ));
                    self.global_labels = Some(labels);
                },
            }
        }
        match &self.global_labels {
            Some(labels) => labels,
            None => vstd::pervasive::unreached(),
        }
    }

    /// Plans the start of the upkeep task: a task that runs is aborted, and
    /// a new one is started where a recorder was installed.
    pub fn start_upkeep_task(&mut self) -> (plan: UpkeepPlan)
        ensures
            plan.abort_running == old(self).upkeep_running,
            plan.start_new == (old(self).handle is Some),
            final(self).upkeep_running == (old(self).handle is Some),
            final(self).handle == old(self).handle,
            final(self).static_labels == old(self).static_labels,
            final(self).global_labels == old(self).global_labels,
    {
        let abort_running = self.stop_upkeep_task();
        let start_new = self.handle.is_some();
        self.upkeep_running = start_new;
        UpkeepPlan { abort_running, start_new }
    }

    /// Plans the stop of the upkeep task. Says whether a task runs that is
    /// to be aborted.
    pub fn stop_upkeep_task(&mut self) -> (abort_running: bool)
        ensures
            abort_running == old(self).upkeep_running,
            !final(self).upkeep_running,
            final(self).handle == old(self).handle,
            final(self).static_labels == old(self).static_labels,
            final(self).global_labels == old(self).global_labels,
    {
        let abort_running = self.upkeep_running;
        self.upkeep_running = false;
        abort_running
    }
}

} // verus!
