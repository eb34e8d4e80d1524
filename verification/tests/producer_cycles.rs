use putioarr::producer::{heartbeat_due, snapshot_has_id, Producer};
use putioarr::putio::{PutIOTransfer, PutIOTransferStatus};

fn remote(id: u64, file_id: Option<u64>) -> PutIOTransfer {
    PutIOTransfer {
        id,
        name: format!("transfer-{id}"),
        status: PutIOTransferStatus::Downloading,
        file_id,
        hash: Some(format!("hash{id}")),
        save_parent_id: Some(7),
    }
}

#[test]
fn poll_cycle_enqueues_new_downloadable_transfers() {
    let mut producer = Producer::new();
    let snapshot = vec![remote(1, Some(10)), remote(2, None), remote(3, Some(30))];
    let queued = producer.poll_cycle(&snapshot);
    let ids: Vec<u64> = queued.iter().map(|t| t.transfer_id).collect();
    assert_eq!(ids, vec![1, 3]);
    assert!(queued.iter().all(|t| t.targets.is_none()));
}

#[test]
fn enqueued_id_is_not_enqueued_again_while_present() {
    let mut producer = Producer::new();
    let snapshot = vec![remote(1, Some(10)), remote(2, Some(20))];
    let first = producer.poll_cycle(&snapshot);
    assert_eq!(first.len(), 2);
    // Same snapshot again: nothing new.
    let second = producer.poll_cycle(&snapshot);
    assert!(second.is_empty());
    // A third cycle with one extra transfer enqueues only that one.
    let snapshot3 = vec![remote(1, Some(10)), remote(2, Some(20)), remote(5, Some(50))];
    let third = producer.poll_cycle(&snapshot3);
    let ids: Vec<u64> = third.iter().map(|t| t.transfer_id).collect();
    assert_eq!(ids, vec![5]);
}

#[test]
fn absent_id_becomes_eligible_for_reenqueue() {
    let mut producer = Producer::new();
    let snapshot = vec![remote(1, Some(10))];
    assert_eq!(producer.poll_cycle(&snapshot).len(), 1);
    // The transfer disappears upstream: the seen set is pruned.
    let empty: Vec<PutIOTransfer> = Vec::new();
    assert!(producer.poll_cycle(&empty).is_empty());
    // It reappears: it is enqueued again.
    let again = producer.poll_cycle(&snapshot);
    assert_eq!(again.len(), 1);
    assert_eq!(again[0].transfer_id, 1);
}

#[test]
fn transfer_becoming_downloadable_is_picked_up() {
    let mut producer = Producer::new();
    let waiting = vec![remote(4, None)];
    assert!(producer.poll_cycle(&waiting).is_empty());
    let ready = vec![remote(4, Some(40))];
    let queued = producer.poll_cycle(&ready);
    assert_eq!(queued.len(), 1);
    assert_eq!(queued[0].file_id, Some(40));
}

#[test]
fn reconcile_startup_plans_but_never_enqueues() {
    let mut producer = Producer::new();
    let snapshot = vec![
        remote(1, Some(10)),       // owned, downloadable
        remote(2, None),           // owned, not downloadable
        {
            let mut other = remote(3, Some(30));
            other.save_parent_id = Some(99);  // not owned by the root folder
            other
        },
    ];
    let to_plan = producer.reconcile_startup(&snapshot, 7);
    let ids: Vec<u64> = to_plan.iter().map(|t| t.transfer_id).collect();
    assert_eq!(ids, vec![1]);

    // Idempotent: running it twice in a row enqueues nothing both times, and
    // the following poll cycle behaves as if reconciliation had never run.
    let to_plan_again = producer.reconcile_startup(&snapshot, 7);
    assert_eq!(to_plan_again.len(), 1);
    let queued = producer.poll_cycle(&snapshot);
    let queued_ids: Vec<u64> = queued.iter().map(|t| t.transfer_id).collect();
    assert_eq!(queued_ids, vec![1, 3]);
}

#[test]
fn snapshot_membership_and_heartbeat() {
    let snapshot = vec![remote(1, Some(10)), remote(2, None)];
    assert!(snapshot_has_id(&snapshot, 1));
    assert!(snapshot_has_id(&snapshot, 2));
    assert!(!snapshot_has_id(&snapshot, 3));

    assert!(!heartbeat_due(0));
    assert!(!heartbeat_due(59));
    assert!(heartbeat_due(60));
    assert!(heartbeat_due(3600));
}
