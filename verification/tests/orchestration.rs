use bevy_s2n_quic::common::channel::{OfferOutcome, SendRefusal};
use bevy_s2n_quic::common::orchestrator::handle::OrchestratorHandle;
use bevy_s2n_quic::common::orchestrator::{orchestrator_error_code, probe_worker, remove_finished, OrchestratorDispatcher, QuicTask};
use bevy_s2n_quic::common::status_code::StatusCode;

#[test]
fn dispatch_round_robin_with_spill_over() {
    let (tx0, mut rx0) = tokio::sync::mpsc::channel::<u32>(1);
    let (tx1, mut rx1) = tokio::sync::mpsc::channel::<u32>(1);
    let (tx2, mut rx2) = tokio::sync::mpsc::channel::<u32>(1);
    let mut d = OrchestratorDispatcher::new(vec![tx0, tx1, tx2]);
    assert_eq!(d.worker_count(), 3);
    let o = d.dispatch(10);
    assert_eq!(o.result.unwrap(), 0);
    assert!(o.refused.is_empty());
    assert_eq!(d.dispatch(11).result.unwrap(), 1);
    // Worker 2's turn; it is free.
    assert_eq!(d.dispatch(12).result.unwrap(), 2);
    // Every worker is full now: the task comes back after all refused, in turn order.
    let o = d.dispatch(13);
    assert_eq!(o.refused, vec![0, 1, 2]);
    assert_eq!(o.offers.len(), 3);
    assert!(o.offers.iter().all(|offer| offer.outcome() == OfferOutcome::Full));
    assert_eq!(o.result.unwrap_err(), 13);
    assert_eq!(rx1.try_recv().unwrap(), 11);
    // Turn is at worker 1 (4 % 3), which has room again.
    let o = d.dispatch(14);
    assert_eq!(o.result.unwrap(), 1);
    assert!(o.refused.is_empty());
    assert_eq!(rx0.try_recv().unwrap(), 10);
    // Turn is at worker 2 (full), spills over to worker 0.
    let o = d.dispatch(15);
    assert_eq!(o.refused, vec![2]);
    let outcomes: Vec<OfferOutcome> = o.offers.iter().map(|offer| offer.outcome()).collect();
    assert_eq!(outcomes, vec![OfferOutcome::Full, OfferOutcome::Accepted]);
    assert_eq!(o.result.unwrap(), 0);
    assert_eq!(rx2.try_recv().unwrap(), 12);
}

#[test]
fn probe_order_wraps_around() {
    assert_eq!(probe_worker(5, 0, 3), Some(2));
    assert_eq!(probe_worker(5, 1, 3), Some(0));
    assert_eq!(probe_worker(5, 2, 3), Some(1));
    assert_eq!(probe_worker(5, 3, 3), None);
    assert_eq!(probe_worker(usize::MAX, 1, 4), Some(0));
}

#[test]
fn remove_finished_tasks() {
    let mut tasks = vec!['a', 'b', 'c', 'd', 'e', 'f'];
    let removed = remove_finished(&mut tasks, vec![1, 3, 5]);
    assert_eq!(removed, vec!['f', 'd', 'b']);
    let mut kept = tasks.clone();
    kept.sort();
    assert_eq!(kept, vec!['a', 'c', 'e']);

    let mut tasks = vec![1, 2, 3];
    let removed = remove_finished(&mut tasks, vec![0]);
    assert_eq!(removed, vec![1]);
    assert_eq!(tasks, vec![3, 2]);

    let mut tasks = vec![1, 2, 3];
    assert!(remove_finished(&mut tasks, vec![]).is_empty());
    assert_eq!(tasks, vec![1, 2, 3]);
}

#[test]
fn orchestrator_handle_push_and_refusal() {
    let rt = tokio::runtime::Builder::new_current_thread().build().unwrap();
    let (tx, mut rx) = tokio::sync::mpsc::channel::<QuicTask<u8, u16, u32>>(1);
    let handle = OrchestratorHandle::new(tx, rt.handle().clone());
    let (answer, offer) = handle.push_connection(1);
    assert!(answer.is_ok());
    assert_eq!(offer.outcome(), OfferOutcome::Accepted);
    let (answer, offer) = handle.push_send(2);
    assert!(matches!(answer, Err(SendRefusal::Full(2))));
    assert_eq!(offer.outcome(), OfferOutcome::Full);
    assert!(matches!(rx.try_recv(), Ok(QuicTask::Connection(1))));
    assert!(handle.push_receive(3).0.is_ok());
    assert!(matches!(rx.try_recv(), Ok(QuicTask::Receive(3))));
    drop(rx);
    // A closed channel is reported as full as well.
    let (answer, offer) = handle.push_receive(4);
    assert!(matches!(answer, Err(SendRefusal::Full(4))));
    assert_eq!(offer.outcome(), OfferOutcome::Closed);
    let copy = handle.clone();
    assert!(matches!(copy.push_connection(5).0, Err(SendRefusal::Full(5))));
    assert_eq!(orchestrator_error_code(), StatusCode::ServiceUnavailable);
}
