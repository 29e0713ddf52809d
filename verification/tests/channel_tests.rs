use agent_core::channel::{written_memo_rereads_equal, InfoChannel, MemoStore};
use agent_core::memo::{CreationPolicy, ProductionMemo};

fn full_memo() -> ProductionMemo {
    ProductionMemo {
        current_status: "Creating cluster".to_string(),
        aws_secret_name: Some("creds".to_string()),
        cluster_name: Some("mycluster".to_string()),
        creation_policy: Some(CreationPolicy::IfNotExists),
        region: Some("us-west-2".to_string()),
        assume_role: None,
        provisioning_started: true,
    }
}

#[test]
fn a_written_memo_rereads_field_for_field_equal() {
    let mut store = MemoStore::new();
    store.send_info(full_memo()).unwrap();
    let back = store.get_info().unwrap();
    let sent = full_memo();
    assert_eq!(back.current_status, sent.current_status);
    assert_eq!(back.aws_secret_name, sent.aws_secret_name);
    assert_eq!(back.cluster_name, sent.cluster_name);
    assert_eq!(back.creation_policy, sent.creation_policy);
    assert_eq!(back.region, sent.region);
    assert_eq!(back.assume_role, sent.assume_role);
    assert_eq!(back.provisioning_started, sent.provisioning_started);
}

#[test]
fn the_round_trip_helper_returns_the_same_memo() {
    let mut store = MemoStore::new();
    let back = written_memo_rereads_equal(&mut store, full_memo()).unwrap();
    assert_eq!(back.cluster_name, Some("mycluster".to_string()));
    assert!(back.provisioning_started);
}

#[test]
fn an_empty_store_hands_out_the_empty_memo() {
    let mut store = MemoStore::new();
    let memo = store.get_info().unwrap();
    assert_eq!(memo.current_status, "");
    assert_eq!(memo.cluster_name, None);
    assert!(!memo.provisioning_started);
}
