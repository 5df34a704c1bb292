use camera_ftp_companion::ai_edit::{
    edit_cancelled_error, next_source, AiEditProgressEvent, NextSource, WorkerEvent, WorkerLoop,
};
use camera_ftp_companion::error::AppError;

#[test]
fn cancellation_then_manual_then_auto() {
    assert_eq!(next_source(true, true, true, true), NextSource::Cancel);
    assert_eq!(next_source(false, true, true, true), NextSource::Manual);
    assert_eq!(next_source(false, false, true, true), NextSource::Auto);
    assert_eq!(next_source(false, false, true, false), NextSource::Wait);
    assert_eq!(next_source(false, false, false, true), NextSource::Wait);
}

#[test]
fn worker_reports_a_batch_and_its_summary() {
    let mut w = WorkerLoop::new();
    let s = w.step(WorkerEvent::TaskTaken { file_name: "a.jpg".to_string(), remaining: 1 });
    assert!(!s.drain && !s.stop);
    assert!(matches!(&s.events[..], [AiEditProgressEvent::Progress { current: 1, total: 2, failed_count: 0, .. }]));
    let s = w.step(WorkerEvent::TaskCompleted {
        file_name: "a.jpg".to_string(),
        output_path: "/o/a.jpg".to_string(),
        remaining: 1,
        queue_depth: 1,
    });
    assert_eq!(s.events.len(), 1);
    assert!(matches!(&s.events[0], AiEditProgressEvent::Completed { current: 1, total: 2, .. }));
    w.step(WorkerEvent::TaskTaken { file_name: "b.jpg".to_string(), remaining: 0 });
    let s = w.step(WorkerEvent::TaskFailed {
        file_name: "b.jpg".to_string(),
        error: "boom".to_string(),
        remaining: 0,
        queue_depth: 0,
    });
    assert_eq!(s.events.len(), 2);
    assert!(matches!(&s.events[0], AiEditProgressEvent::Failed { current: 2, total: 2, failed_count: 1, .. }));
    match &s.events[1] {
        AiEditProgressEvent::Done { total, failed_count, failed_files, output_files } => {
            assert_eq!(*total, 2);
            assert_eq!(*failed_count, 1);
            assert_eq!(failed_files, &vec!["b.jpg".to_string()]);
            assert_eq!(output_files, &vec!["/o/a.jpg".to_string()]);
        }
        other => panic!("expected Done, got {:?}", other),
    }
    assert_eq!(w.state.completed_count + w.state.failed_count, 0);
}

#[test]
fn worker_cancel_and_queue_closing() {
    let mut w = WorkerLoop::new();
    w.step(WorkerEvent::TaskTaken { file_name: "a.jpg".to_string(), remaining: 3 });
    let s = w.step(WorkerEvent::TaskCancelled);
    assert!(s.drain && !s.stop);
    assert!(matches!(&s.events[..], [AiEditProgressEvent::Done { total: 0, failed_count: 0, .. }]));
    let s = w.step(WorkerEvent::Cancelled);
    assert!(s.drain && !s.stop && s.events.len() == 1);
    let s = w.step(WorkerEvent::AutoClosed { queue_depth: 0 });
    assert!(!w.auto_open);
    assert!(s.events.is_empty() && !s.drain && !s.stop);
    w.step(WorkerEvent::TaskTaken { file_name: "c.jpg".to_string(), remaining: 1 });
    w.step(WorkerEvent::TaskCompleted {
        file_name: "c.jpg".to_string(),
        output_path: "/o/c.jpg".to_string(),
        remaining: 1,
        queue_depth: 1,
    });
    let s = w.step(WorkerEvent::ManualClosed);
    assert!(s.drain && s.stop);
    assert!(matches!(&s.events[..], [AiEditProgressEvent::Done { total: 1, failed_count: 0, .. }]));
    assert!(matches!(edit_cancelled_error(), AppError::AiEditError(m) if m == "AI edit cancelled"));
}

#[test]
fn auto_queue_closing_ends_a_finished_batch() {
    let mut w = WorkerLoop::new();
    w.step(WorkerEvent::TaskTaken { file_name: "a.jpg".to_string(), remaining: 1 });
    w.step(WorkerEvent::TaskCompleted {
        file_name: "a.jpg".to_string(),
        output_path: "/o/a.jpg".to_string(),
        remaining: 1,
        queue_depth: 1,
    });
    let s = w.step(WorkerEvent::AutoClosed { queue_depth: 0 });
    assert!(matches!(&s.events[..], [AiEditProgressEvent::Done { total: 1, .. }]));
}
