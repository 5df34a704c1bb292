use camera_ftp_companion::file_index::{
    adjust_current_index_after_removal, file_info_for, file_system_events, index_updates, is_supported_image, FileIndex,
    FileInfo, FileSystemEvent, IndexUpdate, WatchEventKind,
};

fn make_file_info(path: &str, sort_time_ms: u64) -> FileInfo {
    file_info_for(path, sort_time_ms, None)
}

fn paths(index: &FileIndex) -> Vec<String> {
    index.files.iter().map(|f| f.path.clone()).collect()
}

#[test]
fn add_file_keeps_newest_first_and_skips_duplicates() {
    let mut index = FileIndex::new();
    assert!(index.add_file(make_file_info("/p/b.jpg", 200)));
    assert!(index.add_file(make_file_info("/p/a.jpg", 300)));
    assert!(index.add_file(make_file_info("/p/c.jpg", 100)));
    assert!(index.add_file(make_file_info("/p/d.jpg", 200)));
    assert_eq!(paths(&index), vec!["/p/a.jpg", "/p/b.jpg", "/p/d.jpg", "/p/c.jpg"]);
    assert!(!index.add_file(make_file_info("/p/a.jpg", 999)));
    assert!(!index.add_file(make_file_info("/p/notes.txt", 999)));
    assert_eq!(index.files.len(), 4);
}

#[test]
fn current_index_follows_the_current_file() {
    let mut index = FileIndex::new();
    index.set_scanned_files(vec![make_file_info("/p/a.jpg", 300), make_file_info("/p/b.jpg", 100)]);
    assert_eq!(index.current_index, Some(0));
    index.add_file(make_file_info("/p/new.jpg", 400));
    assert_eq!(index.current_index, Some(1));
    assert_eq!(index.files[1].path, "/p/a.jpg");
    assert!(index.remove_file("/p/new.jpg"));
    assert_eq!(index.current_index, Some(0));
    assert!(!index.remove_file("/p/missing.jpg"));
}

#[test]
fn remove_current_last_file_moves_back_or_clears() {
    let mut index = FileIndex::new();
    index.set_scanned_files(vec![make_file_info("/p/a.jpg", 300), make_file_info("/p/b.jpg", 100)]);
    index.navigate_to(1, true).unwrap();
    assert!(index.remove_file("/p/b.jpg"));
    assert_eq!(index.current_index, Some(0));
    assert!(index.remove_file("/p/a.jpg"));
    assert_eq!(index.current_index, None);
}

#[test]
fn navigation_refuses_out_of_bounds_and_drops_missing_files() {
    let mut index = FileIndex::new();
    index.set_scanned_files(vec![make_file_info("/p/a.jpg", 300), make_file_info("/p/b.jpg", 100)]);
    assert!(index.navigate_to(5, true).is_err());
    let err = index.navigate_to(1, false).unwrap_err();
    assert_eq!(err.user_message(), "File not found: /p/b.jpg");
    assert_eq!(paths(&index), vec!["/p/a.jpg"]);
    let f = index.navigate_to(0, true).unwrap();
    assert_eq!(f.filename, "a.jpg");
    assert_eq!(index.current_index, Some(0));
}

#[test]
fn latest_and_find() {
    let mut index = FileIndex::new();
    assert!(index.latest_file().is_none());
    index.set_scanned_files(vec![make_file_info("/p/old.jpg", 1), make_file_info("/p/new.jpg", 9)]);
    assert_eq!(index.latest_file().unwrap().path, "/p/new.jpg");
    assert_eq!(index.find_file_index("/p/old.jpg"), Some(1));
    assert_eq!(index.find_file_index("/p/x.jpg"), None);
    index.refresh_arc();
    assert_eq!(index.files_arc.len(), 2);
}

#[test]
fn scan_order_is_stable_for_equal_times() {
    let mut index = FileIndex::new();
    index.set_scanned_files(vec![
        make_file_info("/p/1.jpg", 5),
        make_file_info("/p/2.jpg", 7),
        make_file_info("/p/3.jpg", 5),
    ]);
    assert_eq!(paths(&index), vec!["/p/2.jpg", "/p/1.jpg", "/p/3.jpg"]);
}

#[test]
fn missing_file_adjustment_keeps_index_on_empty() {
    let mut current = Some(0usize);
    adjust_current_index_after_removal(&mut current, 0, 0);
    assert_eq!(current, Some(0));
    let mut current = Some(3usize);
    adjust_current_index_after_removal(&mut current, 1, 5);
    assert_eq!(current, Some(2));
    let mut current = Some(4usize);
    adjust_current_index_after_removal(&mut current, 4, 4);
    assert_eq!(current, Some(3));
}

#[test]
fn file_info_prefers_exif_time() {
    let f = file_info_for("/p/IMG_1.JPG", 1000, Some(500));
    assert_eq!(f.sort_time, 500);
    assert_eq!(f.filename, "IMG_1.JPG");
    let g = file_info_for("/", 1000, None);
    assert_eq!(g.sort_time, 1000);
    assert_eq!(g.filename, "unknown");
}

#[test]
fn indexed_extensions() {
    assert!(is_supported_image("a.JPG"));
    assert!(is_supported_image("a.hif"));
    assert!(is_supported_image("a.HEIC"));
    assert!(!is_supported_image("a.nef"));
    assert!(!is_supported_image("a"));
}

#[test]
fn watch_events_for_images_only() {
    let ps = vec!["/p/a.jpg".to_string(), "/p/b.txt".to_string()];
    let created = file_system_events(WatchEventKind::Create, &ps);
    assert_eq!(created.len(), 1);
    assert!(matches!(&created[0], FileSystemEvent::Created(p) if p == "/p/a.jpg"));
    assert!(file_system_events(WatchEventKind::Modify, &ps).is_empty());
    let renamed = file_system_events(WatchEventKind::Other, &ps);
    assert!(matches!(&renamed[0], FileSystemEvent::Renamed { from, to } if from == "/p/a.jpg" && to == "/p/b.txt"));
}

#[test]
fn index_updates_follow_events() {
    assert_eq!(index_updates(FileSystemEvent::Created("/a.jpg".to_string())), vec![IndexUpdate::AddWhenReady("/a.jpg".to_string())]);
    assert_eq!(index_updates(FileSystemEvent::Deleted("/a.jpg".to_string())), vec![IndexUpdate::Remove("/a.jpg".to_string())]);
    assert_eq!(
        index_updates(FileSystemEvent::Renamed { from: "/a.jpg".to_string(), to: "/b.jpg".to_string() }),
        vec![IndexUpdate::Remove("/a.jpg".to_string()), IndexUpdate::AddWhenReady("/b.jpg".to_string())]
    );
}

#[test]
fn repeated_adds_keep_order_and_unique_paths() {
    let mut index = FileIndex::new();
    let offered = [("/p/a.jpg", 5), ("/p/b.jpg", 9), ("/p/a.jpg", 7), ("/p/c.jpg", 5), ("/p/d.raw", 8), ("/p/e.heic", 9)];
    for (p, t) in offered {
        index.add_file(file_info_for(p, t, None));
    }
    let paths: Vec<&str> = index.files.iter().map(|f| f.path.as_str()).collect();
    assert_eq!(paths, vec!["/p/b.jpg", "/p/e.heic", "/p/a.jpg", "/p/c.jpg"]);
    let times: Vec<u64> = index.files.iter().map(|f| f.sort_time).collect();
    assert_eq!(times, vec![9, 9, 5, 5]);
}
