use cluster_core::identifiers::PlainNodeId;
use cluster_core::prometheus_metrics::{format_label, Prometheus, UpkeepPlan, UPKEEP_INTERVAL_SECS};
use metrics_exporter_prometheus::PrometheusBuilder;

fn installed() -> Prometheus {
    let handle = PrometheusBuilder::new().build_recorder().handle();
    Prometheus::install(Some(handle), "my \"cluster\"", "node-1")
}

#[test]
fn labels_are_quoted_and_sanitized() {
    assert_eq!(format_label("node_name", "n1"), "node_name=\"n1\"");
    assert_eq!(format_label("cluster_name", "a\"b"), "cluster_name=\"a\\\"b\"");
    assert_eq!(format_label("k", "line\nbreak"), "k=\"line\\nbreak\"");
    assert_eq!(format_label("k", ""), "k=\"\"");
}

#[test]
fn disabled_metrics_have_no_labels() {
    let mut prometheus = Prometheus::install(None, "cluster", "node");
    assert!(prometheus.handle().is_none());
    assert!(prometheus.static_labels.is_empty());
    assert!(prometheus.global_labels(None).is_empty());
    let mut other = Prometheus::disabled();
    assert!(other.handle().is_none());
    assert!(other.global_labels(None).is_empty());
}

#[test]
fn installed_metrics_name_cluster_and_node() {
    let mut prometheus = installed();
    assert!(prometheus.handle().is_some());
    assert!(!prometheus.upkeep_running);
    let expected =
        vec!["cluster_name=\"my \\\"cluster\\\"\"".to_string(), "node_name=\"node-1\"".to_string()];
    assert_eq!(prometheus.static_labels, expected);
    assert_eq!(*prometheus.global_labels(None), expected);
    assert!(prometheus.global_labels.is_none());
}

#[test]
fn node_id_joins_the_labels_once_known() {
    let mut prometheus = installed();
    let with_id = prometheus.global_labels(Some(PlainNodeId(12))).clone();
    assert_eq!(
        with_id,
        vec![
            "cluster_name=\"my \\\"cluster\\\"\"".to_string(),
            "node_name=\"node-1\"".to_string(),
            "node_id=\"N12\"".to_string(),
        ]
    );
    // once known, the labels stay
    assert_eq!(*prometheus.global_labels(None), with_id);
    assert_eq!(*prometheus.global_labels(Some(PlainNodeId(99))), with_id);
    assert_eq!(prometheus.static_labels.len(), 2);
}

#[test]
fn node_ids_are_written_in_decimal() {
    for (id, text) in [(0u32, "node_id=\"N0\""), (7, "node_id=\"N7\""), (4294967295, "node_id=\"N4294967295\"")] {
        let mut prometheus = installed();
        let labels = prometheus.global_labels(Some(PlainNodeId(id)));
        assert_eq!(labels[2], text);
    }
}

#[test]
fn upkeep_starts_only_with_a_recorder() {
    let mut disabled = Prometheus::disabled();
    assert_eq!(
        disabled.start_upkeep_task(),
        UpkeepPlan { abort_running: false, start_new: false }
    );
    assert!(!disabled.upkeep_running);
    assert!(!disabled.stop_upkeep_task());

    let mut prometheus = installed();
    assert_eq!(
        prometheus.start_upkeep_task(),
        UpkeepPlan { abort_running: false, start_new: true }
    );
    assert!(prometheus.upkeep_running);
    assert_eq!(
        prometheus.start_upkeep_task(),
        UpkeepPlan { abort_running: true, start_new: true }
    );
    assert!(prometheus.stop_upkeep_task());
    assert!(!prometheus.upkeep_running);
    assert!(!prometheus.stop_upkeep_task());
    assert_eq!(UPKEEP_INTERVAL_SECS, 5);
}

#[test]
fn quoting_leaves_the_value_as_it_is() {
    assert_eq!(
        cluster_core::prometheus_metrics::quoted_label("k", "a\\\"b"),
        "k=\"a\\\"b\""
    );
    assert_eq!(cluster_core::prometheus_metrics::quoted_label("", ""), "=\"\"");
}
