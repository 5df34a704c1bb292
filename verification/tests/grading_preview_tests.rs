use camera_ftp_companion::color_grading::{
    auto_color_grading_preset, preset_or_error, BatchState, ColorGradingEvent, PreviewState,
};
use camera_ftp_companion::config::AutoColorGradingConfig;

#[test]
fn preset_lookup_names_unknown_presets() {
    assert_eq!(preset_or_error("fujifilm-velvia").unwrap().display_name, "Fujifilm Velvia");
    assert_eq!(preset_or_error("nope").unwrap_err(), "Unknown LUT preset: nope");
}

#[test]
fn auto_grading_only_for_raw_uploads() {
    let on = Some(AutoColorGradingConfig { enabled: true, preset_id: "fujifilm-acros".to_string() });
    assert_eq!(auto_color_grading_preset(&on, "/p/IMG_1.NEF"), Some("fujifilm-acros".to_string()));
    assert_eq!(auto_color_grading_preset(&on, "/p/IMG_1.jpg"), None);
    let off = Some(AutoColorGradingConfig { enabled: false, preset_id: "fujifilm-acros".to_string() });
    assert_eq!(auto_color_grading_preset(&off, "/p/IMG_1.NEF"), None);
    let unnamed = Some(AutoColorGradingConfig { enabled: true, preset_id: String::new() });
    assert_eq!(auto_color_grading_preset(&unnamed, "/p/IMG_1.NEF"), None);
    assert_eq!(auto_color_grading_preset(&None, "/p/IMG_1.NEF"), None);
}

#[test]
fn preview_session_flow() {
    let mut st = PreviewState::new();
    assert_eq!(st.plan_apply("fujifilm-acros", true).unwrap_err(), "No active preview session");
    assert_eq!(st.plan_apply("bad", true).unwrap_err(), "Unknown LUT preset: bad");
    assert!(st.end_for_new_session().is_none());
    st.opened("/p/a.raf".to_string());
    let plan = st.plan_apply("fujifilm-acros", true).unwrap();
    assert!(!plan.toggle_lens);
    assert_eq!(plan.preset.id, "fujifilm-acros");
    let plan = st.plan_apply("fujifilm-acros", false).unwrap();
    assert!(plan.toggle_lens);
    st.lens_switched(false);
    assert!(!st.active.as_ref().unwrap().lens_correction);
    assert_eq!(st.plan_commit("bad", false).unwrap_err(), "Unknown LUT preset: bad");
    assert!(st.active.is_some());
    let commit = st.plan_commit("fujifilm-velvia", true).unwrap();
    assert!(commit.toggle_lens);
    assert_eq!(commit.session.image_path, "/p/a.raf");
    assert!(st.active.is_none());
    assert_eq!(st.plan_commit("fujifilm-velvia", true).unwrap_err(), "No active preview session");
}

#[test]
fn new_session_ends_the_open_one() {
    let mut st = PreviewState::new();
    st.opened("/p/a.raf".to_string());
    let ended = st.end_for_new_session().unwrap();
    assert_eq!(ended.image_path, "/p/a.raf");
    st.opened("/p/b.raf".to_string());
    assert_eq!(st.end().unwrap().image_path, "/p/b.raf");
    assert!(st.end().is_none());
}

#[test]
fn grading_batch_counts_and_summary() {
    let mut st = BatchState::default();
    assert_eq!(
        st.task_started("a.raf".to_string(), 2),
        ColorGradingEvent::Progress { current: 1, total: 3, file_name: "a.raf".to_string(), failed_count: 0 }
    );
    let e = st.record_completed("a.raf".to_string(), "/p/ColorGrading/a.jpg".to_string(), 2);
    assert_eq!(
        e,
        ColorGradingEvent::Completed {
            current: 1,
            total: 3,
            file_name: "a.raf".to_string(),
            failed_count: 0,
            output_path: "/p/ColorGrading/a.jpg".to_string()
        }
    );
    let e = st.record_failed("b.raf".to_string(), "boom".to_string(), 1);
    assert_eq!(
        e,
        ColorGradingEvent::Failed { current: 2, total: 3, file_name: "b.raf".to_string(), error: "boom".to_string(), failed_count: 1 }
    );
    assert!(!st.batch_complete(1));
    assert!(st.batch_complete(0));
    let done = st.finish_batch(false);
    assert_eq!(
        done,
        ColorGradingEvent::Done {
            total: 2,
            failed_count: 1,
            failed_files: vec!["b.raf".to_string()],
            output_files: vec!["/p/ColorGrading/a.jpg".to_string()],
            cancelled: false
        }
    );
    assert_eq!(st.processed_count(), 0);
    assert!(!st.batch_complete(0));
}
