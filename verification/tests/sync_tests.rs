use syezw_sync_backend::auth::Gated;
use syezw_sync_backend::models::{
    DiaryImageRefItem, DiaryImageSyncItem, DiarySyncItem, EncryptedBlob, ImageFetchRequest,
    ImageRefsUpsertRequest, ImageUploadRequest, PeriodMeta, PeriodSyncItem, SyncDownloadRequest,
    SyncMeta, SyncUploadRequest, TodoSyncItem,
};
use syezw_sync_backend::server::SyncServer;

fn key() -> Vec<u8> {
    b"test-key".to_vec()
}

fn blob(iv: &str, data: &str) -> EncryptedBlob {
    EncryptedBlob {
        iv: iv.to_string(),
        data: data.to_string(),
    }
}

fn diary(uuid: &str, author: &str, timestamp: i64, updated_at: i64) -> DiarySyncItem {
    DiarySyncItem {
        uuid: uuid.to_string(),
        author: author.to_string(),
        timestamp,
        updatedAt: updated_at,
        payload: blob("iv", "data"),
    }
}

fn todo(uuid: &str, updated_at: i64) -> TodoSyncItem {
    TodoSyncItem {
        uuid: uuid.to_string(),
        author: "a".to_string(),
        isCompleted: false,
        createdAt: 3,
        completedAt: None,
        updatedAt: updated_at,
        payload: blob("iv", "data"),
    }
}

fn period(start: &str, end: &str, updated_at: i64) -> PeriodSyncItem {
    PeriodSyncItem {
        startDate: start.to_string(),
        endDate: end.to_string(),
        updatedAt: updated_at,
        payload: blob("iv", "data"),
    }
}

fn image(file_name: &str, diary_uuid: &str, hash: &str, updated_at: i64) -> DiaryImageSyncItem {
    DiaryImageSyncItem {
        fileName: file_name.to_string(),
        diaryUuid: diary_uuid.to_string(),
        hash: hash.to_string(),
        updatedAt: updated_at,
        blob: blob("iv", "data"),
    }
}

fn empty_download() -> SyncDownloadRequest {
    SyncDownloadRequest {
        diaries: vec![],
        todos: vec![],
        periods: vec![],
    }
}

#[test]
fn upload_then_download_round_trip() {
    let k = key();
    let mut server = SyncServer::new(k.clone());
    let upload = SyncUploadRequest {
        diaries: vec![diary("d1_1", "a", 1, 2)],
        todos: vec![todo("t1_1", 4)],
        periods: vec![period("2025-01-01", "2025-01-05", 5)],
        images: vec![image("img.jpg", "d1_1", "hash123", 6)],
    };
    let resp = match server.sync_upload(Some(&k), &upload) {
        Gated::Allowed(resp) => resp,
        Gated::Denied => panic!("upload denied"),
    };
    assert!(resp.ok);
    assert_eq!(resp.message, "ok");
    assert_eq!(resp.counts.diaries, 1);
    assert_eq!(resp.counts.todos, 1);
    assert_eq!(resp.counts.periods, 1);
    assert_eq!(resp.counts.images, 1);

    let envl = match server.sync_download(Some(&k), &empty_download()) {
        Gated::Allowed(envl) => envl,
        Gated::Denied => panic!("download denied"),
    };
    assert!(envl.ok, "download ok");
    let data = envl.data;
    assert!(data.diaries.iter().any(|d| d.uuid == "d1_1"));
    assert!(data.todos.iter().any(|t| t.uuid == "t1_1"));
    assert!(data
        .periods
        .iter()
        .any(|p| p.startDate == "2025-01-01" && p.endDate == "2025-01-05"));
    // Images are never part of the bulk download; they are fetched on demand.
    assert!(data.images.is_empty());

    let meta = match server.sync_meta(Some(&k)) {
        Gated::Allowed(meta) => meta,
        Gated::Denied => panic!("meta denied"),
    };
    assert!(meta.diaries.iter().any(|m| m.uuid == "d1_1" && m.updatedAt == 2));
    assert!(meta.todos.iter().any(|m| m.uuid == "t1_1" && m.updatedAt == 4));
    assert!(meta
        .periods
        .iter()
        .any(|m| m.startDate == "2025-01-01" && m.updatedAt == 5));
}

#[test]
fn upload_with_image_hash_dedup_and_fetch() {
    let k = key();
    let mut server = SyncServer::new(k.clone());
    let upload = SyncUploadRequest {
        diaries: vec![diary("d_img_1", "a", 1, 2)],
        todos: vec![],
        periods: vec![],
        images: vec![image("img.jpg", "d_img_1", "hash123", 6)],
    };
    let resp = match server.sync_upload(Some(&k), &upload) {
        Gated::Allowed(resp) => resp,
        Gated::Denied => panic!("upload denied"),
    };
    assert!(resp.ok);

    // Re-upload the same blob under the same hash.
    let img_req = ImageUploadRequest {
        images: vec![image("img.jpg", "d_img_1", "hash123", 6)],
    };
    assert!(matches!(
        server.image_upload(Some(&k), &img_req),
        Gated::Allowed(())
    ));

    // Point a second (diary, file name) pair at the same hash.
    let refs_req = ImageRefsUpsertRequest {
        refs: vec![DiaryImageRefItem {
            diaryUuid: "d_img_2".to_string(),
            fileName: "img.jpg".to_string(),
            hash: "hash123".to_string(),
            updatedAt: 6,
        }],
    };
    assert!(matches!(
        server.image_refs_upsert(Some(&k), &refs_req),
        Gated::Allowed(())
    ));

    // One blob row, two reference rows.
    let hashes = match server.image_hashes(Some(&k)) {
        Gated::Allowed(h) => h,
        Gated::Denied => panic!("hashes denied"),
    };
    assert_eq!(hashes.hashes, vec!["hash123".to_string()]);
    let refs = match server.image_refs(Some(&k)) {
        Gated::Allowed(r) => r,
        Gated::Denied => panic!("refs denied"),
    };
    assert_eq!(refs.refs.len(), 2);

    // Fetching either reference yields the same blob content.
    let fetch1 = match server.image_fetch(
        Some(&k),
        &ImageFetchRequest {
            diaryUuid: "d_img_1".to_string(),
            fileName: "img.jpg".to_string(),
        },
    ) {
        Gated::Allowed(Some(f)) => f,
        _ => panic!("fetch of first ref failed"),
    };
    assert_eq!(fetch1.hash, "hash123");
    let fetch2 = match server.image_fetch(
        Some(&k),
        &ImageFetchRequest {
            diaryUuid: "d_img_2".to_string(),
            fileName: "img.jpg".to_string(),
        },
    ) {
        Gated::Allowed(Some(f)) => f,
        _ => panic!("fetch of second ref failed"),
    };
    assert_eq!(fetch2.hash, "hash123");
    assert_eq!(fetch1.blob.iv, fetch2.blob.iv);
    assert_eq!(fetch1.blob.data, fetch2.blob.data);
}

#[test]
fn idempotent_upsert_stores_one_record() {
    let k = key();
    let mut server = SyncServer::new(k.clone());
    let upload = SyncUploadRequest {
        diaries: vec![diary("d-same", "a", 1, 2)],
        todos: vec![],
        periods: vec![],
        images: vec![],
    };
    for _ in 0..2 {
        match server.sync_upload(Some(&k), &upload) {
            Gated::Allowed(resp) => assert!(resp.ok),
            Gated::Denied => panic!("upload denied"),
        }
    }
    let envl = match server.sync_download(Some(&k), &empty_download()) {
        Gated::Allowed(envl) => envl,
        Gated::Denied => panic!("download denied"),
    };
    assert_eq!(envl.data.diaries.len(), 1);
    let d = &envl.data.diaries[0];
    assert_eq!(d.uuid, "d-same");
    assert_eq!(d.author, "a");
    assert_eq!(d.timestamp, 1);
    assert_eq!(d.updatedAt, 2);
    assert_eq!(d.payload.iv, "iv");
    assert_eq!(d.payload.data, "data");
}

#[test]
fn last_write_wins_by_commit_order() {
    let k = key();
    let mut server = SyncServer::new(k.clone());
    // The first upload carries the larger updatedAt; the later commit still wins.
    let first = SyncUploadRequest {
        diaries: vec![diary("d-lww", "first", 1, 10)],
        todos: vec![],
        periods: vec![],
        images: vec![],
    };
    let second = SyncUploadRequest {
        diaries: vec![diary("d-lww", "second", 1, 5)],
        todos: vec![],
        periods: vec![],
        images: vec![],
    };
    for req in [&first, &second] {
        match server.sync_upload(Some(&k), req) {
            Gated::Allowed(resp) => assert!(resp.ok),
            Gated::Denied => panic!("upload denied"),
        }
    }
    let envl = match server.sync_download(Some(&k), &empty_download()) {
        Gated::Allowed(envl) => envl,
        Gated::Denied => panic!("download denied"),
    };
    assert_eq!(envl.data.diaries.len(), 1);
    assert_eq!(envl.data.diaries[0].author, "second");
    assert_eq!(envl.data.diaries[0].updatedAt, 5);
}

#[test]
fn download_delta_by_manifest_timestamp() {
    let k = key();
    let mut server = SyncServer::new(k.clone());
    let upload = SyncUploadRequest {
        diaries: vec![diary("d-delta", "a", 1, 10)],
        todos: vec![],
        periods: vec![],
        images: vec![],
    };
    match server.sync_upload(Some(&k), &upload) {
        Gated::Allowed(resp) => assert!(resp.ok),
        Gated::Denied => panic!("upload denied"),
    }
    // Equal timestamp: already synced, omitted.
    let same = SyncDownloadRequest {
        diaries: vec![SyncMeta {
            uuid: "d-delta".to_string(),
            updatedAt: 10,
        }],
        todos: vec![],
        periods: vec![],
    };
    match server.sync_download(Some(&k), &same) {
        Gated::Allowed(envl) => assert!(envl.data.diaries.is_empty()),
        Gated::Denied => panic!("download denied"),
    }
    // Older client copy: included.
    let older = SyncDownloadRequest {
        diaries: vec![SyncMeta {
            uuid: "d-delta".to_string(),
            updatedAt: 9,
        }],
        todos: vec![],
        periods: vec![],
    };
    match server.sync_download(Some(&k), &older) {
        Gated::Allowed(envl) => assert_eq!(envl.data.diaries.len(), 1),
        Gated::Denied => panic!("download denied"),
    }
    // Never seen: included.
    match server.sync_download(Some(&k), &empty_download()) {
        Gated::Allowed(envl) => assert_eq!(envl.data.diaries.len(), 1),
        Gated::Denied => panic!("download denied"),
    }
}

#[test]
fn invalid_period_date_aborts_whole_batch() {
    let k = key();
    let mut server = SyncServer::new(k.clone());
    let upload = SyncUploadRequest {
        diaries: vec![diary("d-atomic", "a", 1, 2)],
        todos: vec![],
        periods: vec![period("2025-13-40", "2025-01-05", 5)],
        images: vec![],
    };
    let resp = match server.sync_upload(Some(&k), &upload) {
        Gated::Allowed(resp) => resp,
        Gated::Denied => panic!("upload denied"),
    };
    assert!(!resp.ok);
    assert_eq!(resp.message, "invalid period date");
    assert_eq!(resp.counts.diaries, 0);
    assert_eq!(resp.counts.todos, 0);
    assert_eq!(resp.counts.periods, 0);
    assert_eq!(resp.counts.images, 0);
    // Nothing was committed, not even the valid diary.
    let meta = match server.sync_meta(Some(&k)) {
        Gated::Allowed(meta) => meta,
        Gated::Denied => panic!("meta denied"),
    };
    assert!(meta.diaries.is_empty());
    assert!(meta.periods.is_empty());
}

#[test]
fn malformed_end_date_also_aborts() {
    let k = key();
    let mut server = SyncServer::new(k.clone());
    let upload = SyncUploadRequest {
        diaries: vec![],
        todos: vec![],
        periods: vec![period("2025-01-01", "2025-02-30", 5)],
        images: vec![],
    };
    match server.sync_upload(Some(&k), &upload) {
        Gated::Allowed(resp) => assert!(!resp.ok),
        Gated::Denied => panic!("upload denied"),
    }
}

#[test]
fn leap_day_is_a_valid_date() {
    let k = key();
    let mut server = SyncServer::new(k.clone());
    let good = SyncUploadRequest {
        diaries: vec![],
        todos: vec![],
        periods: vec![period("2024-02-29", "2024-03-01", 5)],
        images: vec![],
    };
    match server.sync_upload(Some(&k), &good) {
        Gated::Allowed(resp) => assert!(resp.ok),
        Gated::Denied => panic!("upload denied"),
    }
    let bad = SyncUploadRequest {
        diaries: vec![],
        todos: vec![],
        periods: vec![period("2023-02-29", "2023-03-01", 5)],
        images: vec![],
    };
    match server.sync_upload(Some(&k), &bad) {
        Gated::Allowed(resp) => assert!(!resp.ok),
        Gated::Denied => panic!("upload denied"),
    }
}

#[test]
fn unauthenticated_requests_deny_and_mutate_nothing() {
    let k = key();
    let mut server = SyncServer::new(k.clone());
    let upload = SyncUploadRequest {
        diaries: vec![diary("d-auth", "a", 1, 2)],
        todos: vec![],
        periods: vec![],
        images: vec![],
    };
    // No credential at all.
    assert!(matches!(
        server.sync_upload(None, &upload),
        Gated::Denied
    ));
    // A wrong credential of the same length.
    let wrong = b"test-kex".to_vec();
    assert!(matches!(
        server.sync_upload(Some(&wrong), &upload),
        Gated::Denied
    ));
    assert!(matches!(server.sync_download(None, &empty_download()), Gated::Denied));
    assert!(matches!(server.sync_meta(None), Gated::Denied));
    assert!(matches!(server.image_hashes(None), Gated::Denied));
    assert!(matches!(server.image_refs(None), Gated::Denied));
    assert!(matches!(
        server.image_upload(
            None,
            &ImageUploadRequest {
                images: vec![image("f", "d", "h", 1)]
            }
        ),
        Gated::Denied
    ));
    assert!(matches!(
        server.image_refs_upsert(None, &ImageRefsUpsertRequest { refs: vec![] }),
        Gated::Denied
    ));
    assert!(matches!(
        server.image_fetch(
            None,
            &ImageFetchRequest {
                diaryUuid: "d".to_string(),
                fileName: "f".to_string()
            }
        ),
        Gated::Denied
    ));
    // No storage mutation happened: every table is still empty.
    let meta = match server.sync_meta(Some(&k)) {
        Gated::Allowed(meta) => meta,
        Gated::Denied => panic!("meta denied"),
    };
    assert!(meta.diaries.is_empty());
    assert!(meta.todos.is_empty());
    assert!(meta.periods.is_empty());
    let hashes = match server.image_hashes(Some(&k)) {
        Gated::Allowed(h) => h,
        Gated::Denied => panic!("hashes denied"),
    };
    assert!(hashes.hashes.is_empty());
}

#[test]
fn empty_api_key_disables_the_credential_check() {
    let mut server = SyncServer::new(Vec::new());
    let upload = SyncUploadRequest {
        diaries: vec![diary("d-open", "a", 1, 2)],
        todos: vec![],
        periods: vec![],
        images: vec![],
    };
    match server.sync_upload(None, &upload) {
        Gated::Allowed(resp) => assert!(resp.ok),
        Gated::Denied => panic!("credential check should be disabled"),
    }
}

#[test]
fn images_excluded_from_bulk_download() {
    let k = key();
    let mut server = SyncServer::new(k.clone());
    let upload = SyncUploadRequest {
        diaries: vec![],
        todos: vec![],
        periods: vec![],
        images: vec![image("img.jpg", "d1", "hashxyz", 6)],
    };
    match server.sync_upload(Some(&k), &upload) {
        Gated::Allowed(resp) => assert!(resp.ok),
        Gated::Denied => panic!("upload denied"),
    }
    // Whatever the manifest says, the images list stays empty.
    match server.sync_download(Some(&k), &empty_download()) {
        Gated::Allowed(envl) => assert!(envl.data.images.is_empty()),
        Gated::Denied => panic!("download denied"),
    }
    let manifest = SyncDownloadRequest {
        diaries: vec![SyncMeta {
            uuid: "d1".to_string(),
            updatedAt: 0,
        }],
        todos: vec![],
        periods: vec![],
    };
    match server.sync_download(Some(&k), &manifest) {
        Gated::Allowed(envl) => assert!(envl.data.images.is_empty()),
        Gated::Denied => panic!("download denied"),
    }
}

#[test]
fn period_reupload_same_start_date_overwrites() {
    let k = key();
    let mut server = SyncServer::new(k.clone());
    for end in ["2025-01-05", "2025-01-09"] {
        let upload = SyncUploadRequest {
            diaries: vec![],
            todos: vec![],
            periods: vec![period("2025-01-01", end, 5)],
            images: vec![],
        };
        match server.sync_upload(Some(&k), &upload) {
            Gated::Allowed(resp) => assert!(resp.ok),
            Gated::Denied => panic!("upload denied"),
        }
    }
    let envl = match server.sync_download(Some(&k), &empty_download()) {
        Gated::Allowed(envl) => envl,
        Gated::Denied => panic!("download denied"),
    };
    assert_eq!(envl.data.periods.len(), 1);
    assert_eq!(envl.data.periods[0].endDate, "2025-01-09");
}

#[test]
fn period_delta_uses_start_date_manifest() {
    let k = key();
    let mut server = SyncServer::new(k.clone());
    let upload = SyncUploadRequest {
        diaries: vec![],
        todos: vec![],
        periods: vec![period("2025-01-01", "2025-01-05", 7)],
        images: vec![],
    };
    match server.sync_upload(Some(&k), &upload) {
        Gated::Allowed(resp) => assert!(resp.ok),
        Gated::Denied => panic!("upload denied"),
    }
    let synced = SyncDownloadRequest {
        diaries: vec![],
        todos: vec![],
        periods: vec![PeriodMeta {
            startDate: "2025-01-01".to_string(),
            updatedAt: 7,
        }],
    };
    match server.sync_download(Some(&k), &synced) {
        Gated::Allowed(envl) => assert!(envl.data.periods.is_empty()),
        Gated::Denied => panic!("download denied"),
    }
    let stale = SyncDownloadRequest {
        diaries: vec![],
        todos: vec![],
        periods: vec![PeriodMeta {
            startDate: "2025-01-01".to_string(),
            updatedAt: 6,
        }],
    };
    match server.sync_download(Some(&k), &stale) {
        Gated::Allowed(envl) => assert_eq!(envl.data.periods.len(), 1),
        Gated::Denied => panic!("download denied"),
    }
}

#[test]
fn duplicate_keys_within_batch_last_wins() {
    let k = key();
    let mut server = SyncServer::new(k.clone());
    let upload = SyncUploadRequest {
        diaries: vec![diary("d-dup", "first", 1, 1), diary("d-dup", "second", 2, 2)],
        todos: vec![],
        periods: vec![],
        images: vec![],
    };
    match server.sync_upload(Some(&k), &upload) {
        Gated::Allowed(resp) => {
            assert!(resp.ok);
            // Counts report batch sizes, not distinct keys.
            assert_eq!(resp.counts.diaries, 2);
        }
        Gated::Denied => panic!("upload denied"),
    }
    let envl = match server.sync_download(Some(&k), &empty_download()) {
        Gated::Allowed(envl) => envl,
        Gated::Denied => panic!("download denied"),
    };
    assert_eq!(envl.data.diaries.len(), 1);
    assert_eq!(envl.data.diaries[0].author, "second");
}

#[test]
fn fetch_unknown_pair_is_not_found() {
    let k = key();
    let server = SyncServer::new(k.clone());
    match server.image_fetch(
        Some(&k),
        &ImageFetchRequest {
            diaryUuid: "nobody".to_string(),
            fileName: "nothing.jpg".to_string(),
        },
    ) {
        Gated::Allowed(found) => assert!(found.is_none()),
        Gated::Denied => panic!("fetch denied"),
    }
}

#[test]
fn dangling_reference_is_not_found() {
    let k = key();
    let mut server = SyncServer::new(k.clone());
    // A reference whose hash has no blob: the inconsistent-reference fault.
    let refs_req = ImageRefsUpsertRequest {
        refs: vec![DiaryImageRefItem {
            diaryUuid: "d1".to_string(),
            fileName: "img.jpg".to_string(),
            hash: "missing-hash".to_string(),
            updatedAt: 1,
        }],
    };
    assert!(matches!(
        server.image_refs_upsert(Some(&k), &refs_req),
        Gated::Allowed(())
    ));
    match server.image_fetch(
        Some(&k),
        &ImageFetchRequest {
            diaryUuid: "d1".to_string(),
            fileName: "img.jpg".to_string(),
        },
    ) {
        Gated::Allowed(found) => assert!(found.is_none()),
        Gated::Denied => panic!("fetch denied"),
    }
}

#[test]
fn ref_upsert_repoints_existing_pair() {
    let k = key();
    let mut server = SyncServer::new(k.clone());
    for hash in ["hash-a", "hash-b"] {
        let refs_req = ImageRefsUpsertRequest {
            refs: vec![DiaryImageRefItem {
                diaryUuid: "d1".to_string(),
                fileName: "img.jpg".to_string(),
                hash: hash.to_string(),
                updatedAt: 1,
            }],
        };
        assert!(matches!(
            server.image_refs_upsert(Some(&k), &refs_req),
            Gated::Allowed(())
        ));
    }
    let refs = match server.image_refs(Some(&k)) {
        Gated::Allowed(r) => r,
        Gated::Denied => panic!("refs denied"),
    };
    assert_eq!(refs.refs.len(), 1);
    assert_eq!(refs.refs[0].hash, "hash-b");
}

#[test]
fn empty_batch_is_a_successful_no_op() {
    let k = key();
    let mut server = SyncServer::new(k.clone());
    let upload = SyncUploadRequest {
        diaries: vec![],
        todos: vec![],
        periods: vec![],
        images: vec![],
    };
    let resp = match server.sync_upload(Some(&k), &upload) {
        Gated::Allowed(resp) => resp,
        Gated::Denied => panic!("upload denied"),
    };
    assert!(resp.ok);
    assert_eq!(resp.counts.diaries, 0);
    assert_eq!(resp.counts.todos, 0);
    assert_eq!(resp.counts.periods, 0);
    assert_eq!(resp.counts.images, 0);
}
