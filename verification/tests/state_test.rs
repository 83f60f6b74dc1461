//! What the client remembers of the stream.

use walpipe::messages::{ColumnInfo, Oid, RelationInfo, ReplicationState};

fn relation(oid: Oid, name: &str) -> RelationInfo {
    RelationInfo {
        oid,
        namespace: "public".to_string(),
        relation_name: name.to_string(),
        replica_identity: 'd',
        column_count: 2,
        columns: vec![],
    }
}

#[test]
fn test_replication_state_creation() {
    let state = ReplicationState::new();
    assert_eq!(state.received_lsn, 0);
    assert_eq!(state.applied_lsn, 0);
    assert_eq!(state.relations.len(), 0);
}

#[test]
fn test_lsn_updates() {
    let mut state = ReplicationState::new();

    // Received positions
    state.update_lsn(100);
    assert_eq!(state.received_lsn, 100);

    // A lower one does not override a higher one
    state.update_lsn(50);
    assert_eq!(state.received_lsn, 100);

    // Applied positions
    state.update_applied_lsn(80);
    assert_eq!(state.applied_lsn, 80);

    // Zero is ignored
    state.update_lsn(0);
    assert_eq!(state.received_lsn, 100);
}

#[test]
fn test_feedback_timing() {
    let mut state = ReplicationState::new();
    let initial = state.last_feedback_time;

    // 10 milliseconds later
    state.update_feedback_time(initial + 10_000_000);
    assert!(state.last_feedback_time > initial);
}

#[test]
fn test_relation_management() {
    let mut state = ReplicationState::new();

    let relation = RelationInfo {
        oid: 12345 as Oid,
        namespace: "public".to_string(),
        relation_name: "test_table".to_string(),
        replica_identity: 'd',
        column_count: 2,
        columns: vec![],
    };

    // Add relation
    state.add_relation(relation.clone());

    // Retrieve relation
    let retrieved = state.get_relation(12345 as Oid);
    assert!(retrieved.is_some());
    assert_eq!(retrieved.unwrap().relation_name, "test_table");

    // Non-existent relation should return None
    assert!(state.get_relation(99999 as Oid).is_none());
}

#[test]
fn applied_positions_do_not_go_back() {
    let mut state = ReplicationState::new();
    state.update_applied_lsn(80);
    state.update_applied_lsn(79);
    assert_eq!(state.applied_lsn, 80);
    state.update_applied_lsn(u64::MAX);
    assert_eq!(state.applied_lsn, u64::MAX);
    assert_eq!(state.received_lsn, 0);
}

#[test]
fn a_later_description_takes_the_place_of_an_earlier_one() {
    let mut state = ReplicationState::new();
    state.add_relation(relation(1, "before"));
    state.add_relation(relation(2, "other"));
    state.add_relation(relation(1, "after"));
    assert_eq!(state.relations.len(), 2);
    assert_eq!(state.get_relation(1).unwrap().relation_name, "after");
    assert_eq!(state.get_relation(2).unwrap().relation_name, "other");
}

#[test]
fn a_copy_of_a_relation_has_all_its_columns() {
    let mut described = relation(7, "event_stream");
    described.columns.push(ColumnInfo { column_name: "a".to_string(), column_type: 25 });
    described.columns.push(ColumnInfo { column_name: "b".to_string(), column_type: 2950 });
    let copy = described.clone();
    assert_eq!(copy.oid, 7);
    assert_eq!(copy.namespace, "public");
    assert_eq!(copy.columns.len(), 2);
    assert_eq!(copy.columns[1].column_name, "b");
    assert_eq!(copy.columns[1].column_type, 2950);
}
