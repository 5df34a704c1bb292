use camera_ftp_companion::mediastore::{
    classify_file, classify_file_with, collection_from_class, default_relative_path, display_name_from_path,
    mime_type_from_filename, relative_path_from_full_path, MediaFileClass, MediaStoreCollection, QueryResult,
    MIME_TYPE_DEFAULT, MIME_TYPE_HEIF, MIME_TYPE_JPEG, MIME_TYPE_MOV, MIME_TYPE_MP4,
};
use camera_ftp_companion::mediastore_paths::{
    effective_parent_path_for_upload, is_root_path, listing_virtual_roots, normalize_path, resolve_path,
    validate_path, virtual_directory_candidates, virtual_file_candidates, PathViolation, DOWNLOADS_RELATIVE_PATH,
};
use camera_ftp_companion::mediastore_listing::{
    build_directory_listing, direct_child_name, list_directory, merge_directory_listings, DirEntry,
    MediaStoreMetadata,
};
use camera_ftp_companion::mediastore_lookup::{
    check_directory, deletable_file_path, directory_modified_millis, lookup_failure, make_directory,
    metadata_from_lookup, plan_upload, readable_file_path, remove_directory, rename, resolve_file_lookup,
    root_metadata, CandidateOutcome, FileLookupResolution, StorageFailure,
};

fn query(display_name: &str, size: u64, date_modified: u64, mime_type: &str, relative_path: &str) -> QueryResult {
    QueryResult {
        content_uri: format!("content://media/{}", display_name),
        display_name: display_name.to_string(),
        size,
        date_modified,
        mime_type: mime_type.to_string(),
        relative_path: relative_path.to_string(),
    }
}

fn names(listing: &[DirEntry]) -> Vec<(String, bool)> {
    listing.iter().map(|e| (e.name.clone(), e.metadata.is_dir)).collect()
}

#[test]
fn test_display_name_from_path_simple() {
    assert_eq!(display_name_from_path("photo.jpg"), "photo.jpg");
}

#[test]
fn test_display_name_from_path_with_directory() {
    assert_eq!(display_name_from_path("/DCIM/Camera/photo.jpg"), "photo.jpg");
}

#[test]
fn test_display_name_from_path_multiple_slashes() {
    assert_eq!(display_name_from_path("/a/b/c/d/photo.jpg"), "photo.jpg");
}

#[test]
fn test_display_name_from_path_trailing_slash() {
    assert_eq!(display_name_from_path("/DCIM/Camera/"), "");
}

#[test]
fn test_display_name_from_path_empty() {
    assert_eq!(display_name_from_path(""), "");
}

#[test]
fn test_default_relative_path() {
    let path = default_relative_path();
    assert!(path.starts_with("DCIM/"));
    assert!(path.ends_with('/'));
}

#[test]
fn test_relative_path_from_full_path_nested() {
    assert_eq!(relative_path_from_full_path("/DCIM/Camera/photo.jpg"), "DCIM/Camera/");
}

#[test]
fn test_relative_path_from_full_path_single_level() {
    assert_eq!(relative_path_from_full_path("/DCIM/photo.jpg"), "DCIM/");
}

#[test]
fn test_relative_path_from_full_path_root() {
    assert_eq!(relative_path_from_full_path("photo.jpg"), "");
}

#[test]
fn test_relative_path_from_full_path_no_leading_slash() {
    assert_eq!(relative_path_from_full_path("DCIM/photo.jpg"), "DCIM/");
}

#[test]
fn test_mime_type_jpeg() {
    assert_eq!(mime_type_from_filename("photo.jpg"), MIME_TYPE_JPEG);
    assert_eq!(mime_type_from_filename("photo.jpeg"), MIME_TYPE_JPEG);
    assert_eq!(mime_type_from_filename("PHOTO.JPG"), MIME_TYPE_JPEG);
    assert_eq!(mime_type_from_filename("Photo.JPEG"), MIME_TYPE_JPEG);
}

#[test]
fn test_mime_type_video_and_heif() {
    assert_eq!(mime_type_from_filename("video.mp4"), MIME_TYPE_MP4);
    assert_eq!(mime_type_from_filename("video.MP4"), MIME_TYPE_MP4);
    assert_eq!(mime_type_from_filename("image.heif"), MIME_TYPE_HEIF);
}

#[test]
fn test_mime_type_unknown() {
    assert_eq!(mime_type_from_filename("file.txt"), MIME_TYPE_DEFAULT);
    assert_eq!(mime_type_from_filename("file.bin"), MIME_TYPE_DEFAULT);
    assert_eq!(mime_type_from_filename("noextension"), MIME_TYPE_DEFAULT);
}

#[test]
fn test_mime_type_raw_formats() {
    assert_eq!(mime_type_from_filename("photo.dng"), "image/x-adobe-dng");
    assert_eq!(mime_type_from_filename("photo.nef"), "image/x-nikon-nef");
    assert_eq!(mime_type_from_filename("photo.nrw"), "image/x-nikon-nrw");
    assert_eq!(mime_type_from_filename("photo.cr2"), "image/x-canon-cr2");
    assert_eq!(mime_type_from_filename("photo.cr3"), "image/x-canon-cr3");
    assert_eq!(mime_type_from_filename("photo.arw"), "image/x-sony-arw");
    assert_eq!(mime_type_from_filename("photo.sr2"), "image/x-sony-sr2");
    assert_eq!(mime_type_from_filename("photo.raf"), "image/x-fuji-raf");
    assert_eq!(mime_type_from_filename("photo.orf"), "image/x-olympus-orf");
    assert_eq!(mime_type_from_filename("photo.rw2"), "image/x-panasonic-rw2");
    assert_eq!(mime_type_from_filename("photo.pef"), "image/x-pentax-pef");
    assert_eq!(mime_type_from_filename("photo.x3f"), "image/x-sigma-x3f");
}

#[test]
fn test_mime_type_raw_formats_case_insensitive() {
    assert_eq!(mime_type_from_filename("PHOTO.DNG"), "image/x-adobe-dng");
    assert_eq!(mime_type_from_filename("Photo.NEF"), "image/x-nikon-nef");
    assert_eq!(mime_type_from_filename("Photo.CR3"), "image/x-canon-cr3");
}

#[test]
fn test_classify_file_routes_raw_to_images_via_collection_from_class() {
    for ext in &["dng", "nef", "nrw", "cr2", "cr3", "arw", "sr2", "raf", "orf", "rw2", "pef", "x3f"] {
        let (_, class) = classify_file(&format!("photo.{ext}"));
        let collection = collection_from_class(class);
        match class {
            MediaFileClass::Image => assert_eq!(collection, MediaStoreCollection::Images, ".{ext} Image → Images"),
            MediaFileClass::Video => assert_eq!(collection, MediaStoreCollection::Videos, ".{ext} Video → Videos"),
            MediaFileClass::NonMedia => assert_eq!(collection, MediaStoreCollection::Downloads, ".{ext} NonMedia → Downloads"),
        }
    }
}

#[test]
fn test_classify_file_unknown_keeps_files_in_downloads() {
    let (_, class) = classify_file("file.bin");
    assert_eq!(collection_from_class(class), MediaStoreCollection::Downloads);
    let (_, class) = classify_file("file.txt");
    assert_eq!(collection_from_class(class), MediaStoreCollection::Downloads);
}

#[test]
fn test_classify_file_unknown_extension_returns_non_media() {
    let (mime, class) = classify_file("unknown.xyz");
    assert_eq!(class, MediaFileClass::NonMedia);
    assert_eq!(mime, MIME_TYPE_DEFAULT);
}

#[test]
fn test_classify_file_empty_extension_returns_non_media() {
    let (mime, class) = classify_file("noextension");
    assert_eq!(class, MediaFileClass::NonMedia);
    assert_eq!(mime, MIME_TYPE_DEFAULT);
}

#[test]
fn test_collection_from_class_mapping() {
    assert_eq!(collection_from_class(MediaFileClass::Image), MediaStoreCollection::Images);
    assert_eq!(collection_from_class(MediaFileClass::Video), MediaStoreCollection::Videos);
    assert_eq!(collection_from_class(MediaFileClass::NonMedia), MediaStoreCollection::Downloads);
}

#[test]
fn classify_file_with_system_mime_uses_its_class() {
    let (mime, class) = classify_file_with("photo.dng", Some("IMAGE/x-adobe-dng".to_string()));
    assert_eq!(mime, "IMAGE/x-adobe-dng");
    assert_eq!(class, MediaFileClass::Image);
    let (_, class) = classify_file_with("clip.mov", Some("video/quicktime".to_string()));
    assert_eq!(class, MediaFileClass::Video);
    let (_, class) = classify_file_with("doc.pdf", Some("application/pdf".to_string()));
    assert_eq!(class, MediaFileClass::NonMedia);
    let (mime, class) = classify_file_with("noextension", Some("image/jpeg".to_string()));
    assert_eq!(mime, "image/jpeg");
    assert_eq!(class, MediaFileClass::Image);
    let (mime, class) = classify_file_with("trailing.", Some("image/jpeg".to_string()));
    assert_eq!(mime, MIME_TYPE_DEFAULT);
    assert_eq!(class, MediaFileClass::NonMedia);
}

#[test]
fn test_backend_normalize_path() {
    assert_eq!(normalize_path("photo.jpg"), "photo.jpg");
    assert_eq!(normalize_path("/DCIM/photo.jpg"), "DCIM/photo.jpg");
    assert_eq!(normalize_path("/DCIM/../photo.jpg"), "photo.jpg");
    assert_eq!(normalize_path("./DCIM/./photo.jpg"), "DCIM/photo.jpg");
}

#[test]
fn test_backend_validate_path_valid() {
    assert!(validate_path("photo.jpg").is_ok());
    assert!(validate_path("/DCIM/photo.jpg").is_ok());
    assert!(validate_path("DCIM/Camera/photo.jpg").is_ok());
}

#[test]
fn test_backend_validate_path_null_bytes() {
    assert!(validate_path("test\0.jpg").is_err());
}

#[test]
fn test_backend_resolve_path() {
    let base = default_relative_path();
    assert_eq!(resolve_path(base, "DCIM/CameraFTP/photo.jpg"), "DCIM/CameraFTP/photo.jpg");
    assert_eq!(resolve_path(base, "DCIM/Camera/photo.jpg"), "DCIM/CameraFTP/DCIM/Camera/photo.jpg");
    assert!(resolve_path(base, "photo.jpg").contains("CameraFTP"));
}

#[test]
fn test_backend_resolve_path_only_preserves_explicit_virtual_root_paths() {
    let base = default_relative_path();
    assert_eq!(resolve_path(base, "DCIM/test.jpg"), "DCIM/CameraFTP/DCIM/test.jpg");
    assert_eq!(resolve_path(base, "DCIM/CameraFTP/test.jpg"), "DCIM/CameraFTP/test.jpg");
    assert_eq!(resolve_path(base, "Pictures/test.jpg"), "DCIM/CameraFTP/Pictures/test.jpg");
    assert_eq!(resolve_path(base, "Download/CameraFTP/test.jpg"), "Download/CameraFTP/test.jpg");
    assert_eq!(resolve_path(base, "/Download/CameraFTP/rooted-test.jpg"), "Download/CameraFTP/rooted-test.jpg");
    assert!(resolve_path(base, "Download/Other/test.jpg").starts_with("DCIM/CameraFTP/"));
}

#[test]
fn test_metadata_from_query_result_file() {
    let q = QueryResult {
        content_uri: "content://media/external/images/media/1".to_string(),
        display_name: "test.jpg".to_string(),
        size: 12345,
        date_modified: 1609459200000,
        mime_type: "image/jpeg".to_string(),
        relative_path: "DCIM/".to_string(),
    };
    let metadata = MediaStoreMetadata::from_query(q);
    assert_eq!(metadata.len(), 12345);
    assert!(metadata.is_file());
    assert!(!metadata.is_dir());
    assert!(!metadata.is_symlink());
    assert_eq!(metadata.mime_type, "image/jpeg");
}

#[test]
fn test_metadata_from_query_result_directory() {
    let q = QueryResult {
        content_uri: "".to_string(),
        display_name: "DCIM/".to_string(),
        size: 0,
        date_modified: 0,
        mime_type: "".to_string(),
        relative_path: "".to_string(),
    };
    let metadata = MediaStoreMetadata::from_query(q);
    assert!(metadata.is_dir());
    assert!(!metadata.is_file());
}

#[test]
fn test_normalize_path() {
    assert_eq!(normalize_path("/foo/bar"), "foo/bar");
    assert_eq!(normalize_path("foo/bar"), "foo/bar");
    assert_eq!(normalize_path("/foo/../bar"), "bar");
    assert_eq!(normalize_path("./foo"), "foo");
}

#[test]
fn test_validate_path() {
    assert!(validate_path("test.jpg").is_ok());
    assert!(validate_path("DCIM/test.jpg").is_ok());
    assert!(validate_path("photo..jpg").is_ok());
    assert!(validate_path("my..backup.tar").is_ok());
    assert!(validate_path("test\0.jpg").is_err());
    assert!(validate_path("../secret").is_err());
    assert!(validate_path("foo/../bar").is_err());
    assert!(validate_path("/../../etc/passwd").is_err());
}

#[test]
fn test_resolve_path() {
    let base = default_relative_path();
    assert!(resolve_path(base, "DCIM/test.jpg").starts_with("DCIM/"));
    assert!(resolve_path(base, "test.jpg").starts_with("DCIM/CameraFTP/"));
}

#[test]
fn test_metadata_from_query_result() {
    let result = QueryResult {
        content_uri: "content://media/external/images/media/1".to_string(),
        display_name: "test.jpg".to_string(),
        size: 1024,
        date_modified: 1609459200000,
        mime_type: "image/jpeg".to_string(),
        relative_path: "DCIM/".to_string(),
    };
    let metadata = MediaStoreMetadata::from_query(result);
    assert_eq!(metadata.size, 1024);
    assert!(!metadata.is_dir);
    assert_eq!(metadata.mime_type, "image/jpeg");
}

#[test]
fn test_virtual_directory_candidates_use_configured_primary_root() {
    let candidates = virtual_directory_candidates("Pictures/CameraFTP/", "/album");
    assert_eq!(
        candidates,
        vec!["Pictures/CameraFTP/album/".to_string(), "Download/CameraFTP/album/".to_string()]
    );
}

#[test]
fn test_virtual_file_candidates_dedup_when_primary_equals_download_root() {
    let candidates = virtual_file_candidates("Download/CameraFTP/", "note.txt");
    assert_eq!(candidates, vec!["Download/CameraFTP/note.txt".to_string()]);
}

#[test]
fn test_virtual_file_candidates_preserve_explicit_rooted_path() {
    let candidates = virtual_file_candidates("DCIM/CameraFTP/", "/DCIM/CameraFTP/file.jpg");
    assert_eq!(candidates, vec!["DCIM/CameraFTP/file.jpg".to_string()]);
}

#[test]
fn test_virtual_file_candidates_do_not_preserve_explicit_non_virtual_dcim_rooted_path() {
    let candidates = virtual_file_candidates(default_relative_path(), "/DCIM/album/file.jpg");
    assert_eq!(
        candidates,
        vec![
            "DCIM/CameraFTP/DCIM/album/file.jpg".to_string(),
            "Download/CameraFTP/DCIM/album/file.jpg".to_string()
        ]
    );
}

#[test]
fn test_virtual_file_candidates_preserve_explicit_dcim_cameraftp_rooted_path() {
    let candidates = virtual_file_candidates(default_relative_path(), "/DCIM/CameraFTP/file.jpg");
    assert_eq!(candidates, vec!["DCIM/CameraFTP/file.jpg".to_string()]);
}

#[test]
fn test_virtual_file_candidates_preserve_explicit_download_cameraftp_rooted_path() {
    let candidates = virtual_file_candidates(default_relative_path(), "/Download/CameraFTP/file.jpg");
    assert_eq!(candidates, vec!["Download/CameraFTP/file.jpg".to_string()]);
}

#[test]
fn test_virtual_file_candidates_do_not_preserve_arbitrary_download_rooted_path() {
    let candidates = virtual_file_candidates(default_relative_path(), "/Download/Other/file.jpg");
    assert_eq!(
        candidates,
        vec![
            "DCIM/CameraFTP/Download/Other/file.jpg".to_string(),
            "Download/CameraFTP/Download/Other/file.jpg".to_string()
        ]
    );
}

#[test]
fn test_effective_parent_path_for_downloads_preserves_explicit_subdirectory() {
    let base = default_relative_path();

    let effective = effective_parent_path_for_upload(
        MediaStoreCollection::Downloads,
        "Download/CameraFTP/subdir/notes.txt",
        "Download/CameraFTP/subdir/",
        base,
    );
    assert_eq!(effective, "Download/CameraFTP/subdir/");

    let effective = effective_parent_path_for_upload(
        MediaStoreCollection::Downloads,
        "DCIM/CameraFTP/notes.txt",
        "DCIM/CameraFTP/",
        base,
    );
    assert_eq!(effective, DOWNLOADS_RELATIVE_PATH);

    let effective = effective_parent_path_for_upload(
        MediaStoreCollection::Downloads,
        "DCIM/CameraFTP/subdir/notes.txt",
        "DCIM/CameraFTP/subdir/",
        base,
    );
    assert_eq!(effective, "Download/CameraFTP/subdir/");
}

#[test]
fn test_display_name_from_path() {
    assert_eq!(display_name_from_path("/DCIM/Camera/photo.jpg"), "photo.jpg");
    assert_eq!(display_name_from_path("photo.jpg"), "photo.jpg");
    assert_eq!(display_name_from_path("/photo.jpg"), "photo.jpg");
    assert_eq!(display_name_from_path("DCIM/photo.jpg"), "photo.jpg");
    assert_eq!(display_name_from_path(""), "");
}

#[test]
fn test_relative_path_from_full_path() {
    assert_eq!(relative_path_from_full_path("/DCIM/Camera/photo.jpg"), "DCIM/Camera/");
    assert_eq!(relative_path_from_full_path("photo.jpg"), "");
    assert_eq!(relative_path_from_full_path("/photo.jpg"), "");
    assert_eq!(relative_path_from_full_path("DCIM/photo.jpg"), "DCIM/");
}

#[test]
fn test_mime_type_from_filename() {
    assert_eq!(mime_type_from_filename("photo.jpg"), MIME_TYPE_JPEG);
    assert_eq!(mime_type_from_filename("photo.JPEG"), MIME_TYPE_JPEG);
    assert_eq!(mime_type_from_filename("photo.heif"), MIME_TYPE_HEIF);
    assert_eq!(mime_type_from_filename("photo.heic"), MIME_TYPE_HEIF);
    assert_eq!(mime_type_from_filename("photo.hif"), MIME_TYPE_HEIF);
    assert_eq!(mime_type_from_filename("video.mp4"), MIME_TYPE_MP4);
    assert_eq!(mime_type_from_filename("video.mov"), MIME_TYPE_MOV);
    assert_eq!(mime_type_from_filename("photo.xyz"), MIME_TYPE_DEFAULT);
    assert_eq!(mime_type_from_filename("photo.unknown"), MIME_TYPE_DEFAULT);
}

#[test]
fn test_query_result_is_directory() {
    let file = QueryResult {
        content_uri: "content://media/external/images/media/1".to_string(),
        display_name: "photo.jpg".to_string(),
        size: 1024,
        date_modified: 0,
        mime_type: "image/jpeg".to_string(),
        relative_path: "DCIM/".to_string(),
    };
    assert!(!file.is_directory());

    let dir = QueryResult {
        content_uri: "".to_string(),
        display_name: "DCIM/".to_string(),
        size: 0,
        date_modified: 0,
        mime_type: "".to_string(),
        relative_path: "".to_string(),
    };
    assert!(dir.is_directory());
}

#[test]
fn root_path_and_virtual_roots() {
    assert!(is_root_path("/"));
    assert!(is_root_path("./"));
    assert!(is_root_path("a/.."));
    assert!(!is_root_path("/a"));
    assert_eq!(
        listing_virtual_roots("/DCIM/CameraFTP"),
        vec!["DCIM/CameraFTP/".to_string(), "Download/CameraFTP/".to_string()]
    );
    assert_eq!(listing_virtual_roots("Download/CameraFTP/"), vec!["Download/CameraFTP/".to_string()]);
    assert_eq!(validate_path("a/../b"), Err(PathViolation::Traversal));
    assert_eq!(validate_path("..\0"), Err(PathViolation::NullByte));
}

#[test]
fn direct_child_name_files_and_subdirectories() {
    let file = query("a.jpg", 1, 5, "image/jpeg", "DCIM/CameraFTP/");
    assert_eq!(direct_child_name("DCIM/CameraFTP/", &file), Some(("a.jpg".to_string(), false)));
    let nested = query("b.jpg", 1, 5, "image/jpeg", "/DCIM/CameraFTP/trip/day1/");
    assert_eq!(direct_child_name("/DCIM/CameraFTP/", &nested), Some(("trip".to_string(), true)));
    let other = query("c.jpg", 1, 5, "image/jpeg", "Download/");
    assert_eq!(direct_child_name("DCIM/CameraFTP/", &other), None);
    let blank = query("d.jpg", 1, 5, "image/jpeg", "DCIM/CameraFTP/ /x/");
    assert_eq!(direct_child_name("DCIM/CameraFTP/", &blank), None);
}

#[test]
fn build_listing_puts_sorted_directories_before_files() {
    let results = vec![
        query("z.jpg", 10, 100, "image/jpeg", "DCIM/CameraFTP/"),
        query("x.jpg", 3, 700, "image/jpeg", "DCIM/CameraFTP/beta/"),
        query("y.jpg", 3, 300, "image/jpeg", "DCIM/CameraFTP/alpha/"),
        query("w.jpg", 3, 900, "image/jpeg", "DCIM/CameraFTP/beta/deep/"),
        query("a.jpg", 20, 200, "image/jpeg", "DCIM/CameraFTP/"),
        query("q.jpg", 20, 200, "image/jpeg", "Download/CameraFTP/"),
    ];
    let listing = build_directory_listing("DCIM/CameraFTP/", &results);
    assert_eq!(
        names(&listing),
        vec![
            ("alpha".to_string(), true),
            ("beta".to_string(), true),
            ("z.jpg".to_string(), false),
            ("a.jpg".to_string(), false)
        ]
    );
    assert_eq!(listing[0].metadata.modified, 300);
    assert_eq!(listing[1].metadata.modified, 900);
    assert_eq!(listing[1].metadata.size, 0);
    assert_eq!(listing[1].metadata.mime_type, "inode/directory");
    assert_eq!(listing[2].metadata.size, 10);
}

fn entry(name: &str, is_dir: bool, modified: u64, size: u64) -> DirEntry {
    DirEntry {
        name: name.to_string(),
        metadata: MediaStoreMetadata {
            size,
            modified,
            is_dir,
            mime_type: if is_dir { "inode/directory".to_string() } else { "image/jpeg".to_string() },
        },
    }
}

#[test]
fn merge_listings_collision_precedence() {
    let primary = vec![
        entry("same.jpg", false, 1, 111),
        entry("dir", true, 10, 0),
        entry("file_vs_dir", false, 5, 7),
        entry("dir_vs_file", true, 5, 0),
    ];
    let secondary = vec![
        entry("same.jpg", false, 2, 222),
        entry("dir", true, 50, 0),
        entry("file_vs_dir", true, 6, 0),
        entry("dir_vs_file", false, 6, 9),
        entry("only_secondary.txt", false, 3, 3),
    ];
    let merged = merge_directory_listings(primary, secondary);
    assert_eq!(
        names(&merged),
        vec![
            ("dir".to_string(), true),
            ("dir_vs_file".to_string(), true),
            ("file_vs_dir".to_string(), true),
            ("only_secondary.txt".to_string(), false),
            ("same.jpg".to_string(), false)
        ]
    );
    assert_eq!(merged[0].metadata.modified, 50);
    assert_eq!(merged[1].metadata.modified, 5);
    assert_eq!(merged[2].metadata.modified, 6);
    assert_eq!(merged[4].metadata.size, 111);
}

#[test]
fn list_directory_merges_both_virtual_roots() {
    let candidates = vec!["DCIM/CameraFTP/".to_string(), "Download/CameraFTP/".to_string()];
    let results = vec![
        vec![
            query("shared", 0, 10, "inode/directory", "DCIM/CameraFTP/"),
            query("p.jpg", 5, 20, "image/jpeg", "DCIM/CameraFTP/"),
            query("s.jpg", 5, 30, "image/jpeg", "DCIM/CameraFTP/shared/"),
        ],
        vec![
            query("n.txt", 8, 40, "text/plain", "Download/CameraFTP/shared/"),
            query("p.jpg", 9, 50, "image/jpeg", "Download/CameraFTP/"),
            query("notes.txt", 2, 60, "text/plain", "Download/CameraFTP/"),
        ],
    ];
    let listing = list_directory(&candidates, &results);
    assert_eq!(
        names(&listing),
        vec![
            ("notes.txt".to_string(), false),
            ("p.jpg".to_string(), false),
            ("shared".to_string(), true),
        ]
    );
    assert_eq!(listing[1].metadata.size, 5);
    assert_eq!(listing[2].metadata.modified, 40);
}

#[test]
fn directory_modified_uses_latest_entry() {
    let found = vec![vec![], vec![query("a", 0, 7, "", "x/"), query("b", 0, 9, "", "x/")]];
    assert_eq!(directory_modified_millis(&found, false), Some(9));
    let none: Vec<Vec<QueryResult>> = vec![vec![], vec![]];
    assert_eq!(directory_modified_millis(&none, false), None);
    assert_eq!(directory_modified_millis(&none, true), Some(0));
}

#[test]
fn file_lookup_prefers_directory_then_primary_file() {
    let file = |name: &str| CandidateOutcome::Found(query(name, 1, 1, "image/jpeg", "DCIM/CameraFTP/"));
    let candidates = vec!["DCIM/CameraFTP/a.jpg".to_string(), "Download/CameraFTP/a.jpg".to_string()];

    let r = resolve_file_lookup(candidates.clone(), vec![file("a.jpg"), file("a.jpg")], None).unwrap();
    match r {
        FileLookupResolution::File { candidate_path, .. } => assert_eq!(candidate_path, "DCIM/CameraFTP/a.jpg"),
        other => panic!("unexpected {:?}", other),
    }

    let r = resolve_file_lookup(candidates.clone(), vec![CandidateOutcome::Missing, file("a.jpg")], None).unwrap();
    match r {
        FileLookupResolution::File { candidate_path, .. } => assert_eq!(candidate_path, "Download/CameraFTP/a.jpg"),
        other => panic!("unexpected {:?}", other),
    }

    let r = resolve_file_lookup(candidates.clone(), vec![file("a.jpg"), CandidateOutcome::Missing], Some(77)).unwrap();
    assert!(matches!(r, FileLookupResolution::Directory { modified: 77 }));

    let dir = CandidateOutcome::Found(query("a.jpg", 0, 1, "inode/directory", "DCIM/CameraFTP/"));
    let r = resolve_file_lookup(candidates.clone(), vec![dir, CandidateOutcome::Missing], None).unwrap();
    assert!(matches!(r, FileLookupResolution::NotFound));

    let failing = vec![file("a.jpg"), CandidateOutcome::Failed("bridge down".to_string())];
    assert_eq!(lookup_failure(&failing), Some("bridge down".to_string()));
    assert_eq!(resolve_file_lookup(candidates, failing, Some(1)).unwrap_err(), "bridge down");
}

#[test]
fn command_answers_for_directories_and_missing_files() {
    match readable_file_path("/x", FileLookupResolution::Directory { modified: 3 }) {
        Err(StorageFailure::FileNotAvailable(m)) => {
            assert_eq!(m, "Path is a directory and cannot be opened as a file: /x")
        }
        other => panic!("unexpected {:?}", other),
    }
    match deletable_file_path("/x", FileLookupResolution::NotFound) {
        Err(StorageFailure::FileNotAvailable(m)) => assert_eq!(m, "File not found: /x"),
        other => panic!("unexpected {:?}", other),
    }
    match metadata_from_lookup("/x", FileLookupResolution::NotFound) {
        Err(StorageFailure::FileNotAvailable(m)) => assert_eq!(m, "Metadata not found: /x"),
        other => panic!("unexpected {:?}", other),
    }
    let m = metadata_from_lookup("/x", FileLookupResolution::Directory { modified: 9 }).unwrap();
    assert!(m.is_dir && m.modified == 9 && m.mime_type == "inode/directory");
    let root = root_metadata(None);
    assert!(root.is_dir && root.modified == 0);
    assert!(check_directory("/", true, false).is_ok());
    match check_directory("/subdir", false, false) {
        Err(StorageFailure::DirectoryNotAvailable(m)) => assert_eq!(m, "Directory not found: /subdir"),
        other => panic!("unexpected {:?}", other),
    }
    assert!(matches!(make_directory("/newdir"), Err(StorageFailure::CommandNotImplemented(_))));
    assert!(matches!(remove_directory("/newdir"), Err(StorageFailure::CommandNotImplemented(_))));
    assert!(matches!(make_directory("../x"), Err(StorageFailure::InvalidPath(PathViolation::Traversal))));
    assert!(matches!(rename("a", "b"), Err(StorageFailure::CommandNotImplemented(_))));
}

#[test]
fn upload_plan_routes_non_media_to_downloads() {
    let plan = plan_upload(default_relative_path(), "/trip/notes.txt", 0, None).unwrap();
    assert_eq!(plan.display_name, "notes.txt");
    assert_eq!(plan.mime_type, MIME_TYPE_DEFAULT);
    assert_eq!(plan.collection, MediaStoreCollection::Downloads);
    assert_eq!(plan.relative_path, "Download/CameraFTP/trip/");

    let plan = plan_upload(default_relative_path(), "/trip/a.nef", 0, Some("image/x-nikon-nef".to_string())).unwrap();
    assert_eq!(plan.collection, MediaStoreCollection::Images);
    assert_eq!(plan.relative_path, "DCIM/CameraFTP/trip/");

    assert!(matches!(
        plan_upload(default_relative_path(), "/a.jpg", 10, None),
        Err(StorageFailure::CommandNotImplemented(_))
    ));
    assert!(matches!(
        plan_upload(default_relative_path(), "/../a.jpg", 0, None),
        Err(StorageFailure::InvalidPath(PathViolation::Traversal))
    ));
}

#[test]
fn normalizing_twice_changes_nothing() {
    for p in ["/a/./b/../c//d", "../../x", "/", "", "DCIM/CameraFTP/", "a/b/../../..", "./.."] {
        let once = camera_ftp_companion::mediastore_paths::normalize_path(p);
        assert_eq!(camera_ftp_companion::mediastore_paths::normalize_path(&once), once);
    }
    assert_eq!(camera_ftp_companion::mediastore_paths::normalize_path("/a/./b/../c//d"), "a/c/d");
}
