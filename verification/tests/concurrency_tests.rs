use std::sync::Arc;
use std::sync::Mutex;

use cryptor::JsAsyncSBoxCryptor;

// many simultaneous tasks hammering one label converge to the exact
// expected final count: no update is lost, whatever the interleaving

#[test]
fn concurrent_paired_work_returns_label_to_zero() {
    let rt = tokio::runtime::Builder::new_multi_thread().worker_threads(4).build().unwrap();
    let shared = Arc::new(Mutex::new(JsAsyncSBoxCryptor::new(4)));
    let mut handles = Vec::new();
    for _task in 0..16 {
        let cr = shared.clone();
        handles.push(rt.spawn_blocking(move || {
            for _ in 0..200 {
                cr.lock().unwrap().begin_labeled_work(7);
                cr.lock().unwrap().end_labeled_work(7);
            }
        }));
    }
    for h in handles {
        rt.block_on(h).unwrap();
    }
    let cr = shared.lock().unwrap();
    assert_eq!(cr.label_count(7), 0);
    assert_eq!(cr.can_start_under_work_label(7), 4);
}

#[test]
fn concurrent_unbalanced_work_leaves_exact_residue() {
    let rt = tokio::runtime::Builder::new_multi_thread().worker_threads(4).build().unwrap();
    let shared = Arc::new(Mutex::new(JsAsyncSBoxCryptor::new(4)));
    let tasks = 12u32;
    let mut handles = Vec::new();
    for task in 0..tasks {
        let cr = shared.clone();
        handles.push(rt.spawn_blocking(move || {
            // each task leaves exactly one unit in flight under the shared
            // label and one under its own
            for _ in 0..50 {
                cr.lock().unwrap().begin_labeled_work(1);
                cr.lock().unwrap().end_labeled_work(1);
            }
            cr.lock().unwrap().begin_labeled_work(1);
            cr.lock().unwrap().begin_labeled_work(100 + task);
        }));
    }
    for h in handles {
        rt.block_on(h).unwrap();
    }
    let cr = shared.lock().unwrap();
    assert_eq!(cr.label_count(1), tasks);
    for task in 0..tasks {
        assert_eq!(cr.label_count(100 + task), 1);
    }
}
