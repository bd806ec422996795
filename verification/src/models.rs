//! The entity and message shapes of the synchronization protocol, together
//! with their mathematical views.  Payloads are opaque ciphertext: an
//! initialization vector and data that the engine stores and returns but
//! never interprets.

use vstd::prelude::*;

verus! {

// ---------------------------------------------------------------------------
// Views: the mathematical model of each row and message, over `Seq<char>`.
// ---------------------------------------------------------------------------
/// Model of an opaque encrypted payload.
pub struct BlobV {
    pub iv: Seq<char>,
    pub data: Seq<char>,
}

/// Model of a diary row, keyed by `uuid`.
pub struct DiaryV {
    pub uuid: Seq<char>,
    pub author: Seq<char>,
    pub timestamp: i64,
    pub updated_at: i64,
    pub payload: BlobV,
}

/// Model of a todo row, keyed by `uuid`.
pub struct TodoV {
    pub uuid: Seq<char>,
    pub author: Seq<char>,
    pub is_completed: bool,
    pub created_at: i64,
    pub completed_at: Option<i64>,
    pub updated_at: i64,
    pub payload: BlobV,
}

/// Model of a period row, keyed by `start_date`.
pub struct PeriodV {
    pub start_date: Seq<char>,
    pub end_date: Seq<char>,
    pub updated_at: i64,
    pub payload: BlobV,
}

/// Model of an uploaded image: one content-addressed blob plus the
/// (diary, file name) reference that points at it.
pub struct ImageV {
    pub file_name: Seq<char>,
    pub diary_uuid: Seq<char>,
    pub hash: Seq<char>,
    pub updated_at: i64,
    pub blob: BlobV,
}

/// Model of an image-blob row, keyed by `hash`.
pub struct ImageBlobV {
    pub hash: Seq<char>,
    pub iv: Seq<char>,
    pub data: Seq<char>,
    pub updated_at: i64,
}

/// Model of an image-reference row, keyed by `(diary_uuid, file_name)`.
pub struct RefV {
    pub diary_uuid: Seq<char>,
    pub file_name: Seq<char>,
    pub hash: Seq<char>,
    pub updated_at: i64,
}

/// Model of one manifest entry: the client's last-known `updatedAt` for a key.
pub struct MetaV {
    pub uuid: Seq<char>,
    pub updated_at: i64,
}

/// Model of one period manifest entry.
pub struct PeriodMetaV {
    pub start_date: Seq<char>,
    pub updated_at: i64,
}

// ---------------------------------------------------------------------------
// Executable types.
// ---------------------------------------------------------------------------
/// Opaque ciphertext plus its initialization vector; never decoded here.
#[derive(Debug, PartialEq)]
pub struct EncryptedBlob {
    pub iv: String,
    pub data: String,
}

impl View for EncryptedBlob {
    type V = BlobV;

    open spec fn view(&self) -> BlobV {
        BlobV { iv: self.iv@, data: self.data@ }
    }
}

impl Clone for EncryptedBlob {
    fn clone(&self) -> (res: Self)
        ensures
            res == *self,
    {
        EncryptedBlob { iv: self.iv.clone(), data: self.data.clone() }
    }
}

/// A client-supplied connection descriptor.  The engine itself never reads
/// it; the process configuration decides where the durable store lives.
#[derive(Debug, PartialEq)]
pub struct DbConfig {
    pub host: String,
    pub port: i32,
    pub database: String,
    pub user: String,
    pub password: String,
}

impl Clone for DbConfig {
    fn clone(&self) -> (res: Self)
        ensures
            res == *self,
    {
        DbConfig {
            host: self.host.clone(),
            port: self.port,
            database: self.database.clone(),
            user: self.user.clone(),
            password: self.password.clone(),
        }
    }
}

/// An encrypted diary entry, keyed by `uuid`.
#[allow(non_snake_case)]
#[derive(Debug, PartialEq)]
pub struct DiarySyncItem {
    pub uuid: String,
    pub author: String,
    pub timestamp: i64,
    pub updatedAt: i64,
    pub payload: EncryptedBlob,
}

impl View for DiarySyncItem {
    type V = DiaryV;

    open spec fn view(&self) -> DiaryV {
        DiaryV {
            uuid: self.uuid@,
            author: self.author@,
            timestamp: self.timestamp,
            updated_at: self.updatedAt,
            payload: self.payload@,
        }
    }
}

impl Clone for DiarySyncItem {
    fn clone(&self) -> (res: Self)
        ensures
            res == *self,
    {
        DiarySyncItem {
            uuid: self.uuid.clone(),
            author: self.author.clone(),
            timestamp: self.timestamp,
            updatedAt: self.updatedAt,
            payload: self.payload.clone(),
        }
    }
}

/// An encrypted todo item, keyed by `uuid`.
#[allow(non_snake_case)]
#[derive(Debug, PartialEq)]
pub struct TodoSyncItem {
    pub uuid: String,
    pub author: String,
    pub isCompleted: bool,
    pub createdAt: i64,
    pub completedAt: Option<i64>,
    pub updatedAt: i64,
    pub payload: EncryptedBlob,
}

impl View for TodoSyncItem {
    type V = TodoV;

    open spec fn view(&self) -> TodoV {
        TodoV {
            uuid: self.uuid@,
            author: self.author@,
            is_completed: self.isCompleted,
            created_at: self.createdAt,
            completed_at: self.completedAt,
            updated_at: self.updatedAt,
            payload: self.payload@,
        }
    }
}

impl Clone for TodoSyncItem {
    fn clone(&self) -> (res: Self)
        ensures
            res == *self,
    {
        TodoSyncItem {
            uuid: self.uuid.clone(),
            author: self.author.clone(),
            isCompleted: self.isCompleted,
            createdAt: self.createdAt,
            completedAt: self.completedAt,
            updatedAt: self.updatedAt,
            payload: self.payload.clone(),
        }
    }
}

/// An encrypted period record; its start date is also its key.
#[allow(non_snake_case)]
#[derive(Debug, PartialEq)]
pub struct PeriodSyncItem {
    pub startDate: String,
    pub endDate: String,
    pub updatedAt: i64,
    pub payload: EncryptedBlob,
}

impl View for PeriodSyncItem {
    type V = PeriodV;

    open spec fn view(&self) -> PeriodV {
        PeriodV {
            start_date: self.startDate@,
            end_date: self.endDate@,
            updated_at: self.updatedAt,
            payload: self.payload@,
        }
    }
}

impl Clone for PeriodSyncItem {
    fn clone(&self) -> (res: Self)
        ensures
            res == *self,
    {
        PeriodSyncItem {
            startDate: self.startDate.clone(),
            endDate: self.endDate.clone(),
            updatedAt: self.updatedAt,
            payload: self.payload.clone(),
        }
    }
}

/// An uploaded image: the blob to store under its content hash and the
/// (diary, file name) reference that points at that hash.
#[allow(non_snake_case)]
#[derive(Debug, PartialEq)]
pub struct DiaryImageSyncItem {
    pub fileName: String,
    pub diaryUuid: String,
    pub hash: String,
    pub updatedAt: i64,
    pub blob: EncryptedBlob,
}

impl View for DiaryImageSyncItem {
    type V = ImageV;

    open spec fn view(&self) -> ImageV {
        ImageV {
            file_name: self.fileName@,
            diary_uuid: self.diaryUuid@,
            hash: self.hash@,
            updated_at: self.updatedAt,
            blob: self.blob@,
        }
    }
}

impl Clone for DiaryImageSyncItem {
    fn clone(&self) -> (res: Self)
        ensures
            res == *self,
    {
        DiaryImageSyncItem {
            fileName: self.fileName.clone(),
            diaryUuid: self.diaryUuid.clone(),
            hash: self.hash.clone(),
            updatedAt: self.updatedAt,
            blob: self.blob.clone(),
        }
    }
}

/// A stored image blob row: content-addressed by `hash`.
#[allow(non_snake_case)]
#[derive(Debug, PartialEq)]
pub struct ImageBlobItem {
    pub hash: String,
    pub iv: String,
    pub data: String,
    pub updatedAt: i64,
}

impl View for ImageBlobItem {
    type V = ImageBlobV;

    open spec fn view(&self) -> ImageBlobV {
        ImageBlobV { hash: self.hash@, iv: self.iv@, data: self.data@, updated_at: self.updatedAt }
    }
}

impl Clone for ImageBlobItem {
    fn clone(&self) -> (res: Self)
        ensures
            res == *self,
    {
        ImageBlobItem {
            hash: self.hash.clone(),
            iv: self.iv.clone(),
            data: self.data.clone(),
            updatedAt: self.updatedAt,
        }
    }
}

/// An image-reference row, keyed by `(diaryUuid, fileName)`.
#[allow(non_snake_case)]
#[derive(Debug, PartialEq)]
pub struct DiaryImageRefItem {
    pub diaryUuid: String,
    pub fileName: String,
    pub hash: String,
    pub updatedAt: i64,
}

impl View for DiaryImageRefItem {
    type V = RefV;

    open spec fn view(&self) -> RefV {
        RefV {
            diary_uuid: self.diaryUuid@,
            file_name: self.fileName@,
            hash: self.hash@,
            updated_at: self.updatedAt,
        }
    }
}

impl Clone for DiaryImageRefItem {
    fn clone(&self) -> (res: Self)
        ensures
            res == *self,
    {
        DiaryImageRefItem {
            diaryUuid: self.diaryUuid.clone(),
            fileName: self.fileName.clone(),
            hash: self.hash.clone(),
            updatedAt: self.updatedAt,
        }
    }
}

/// One manifest entry of a download request for diaries or todos.
#[allow(non_snake_case)]
#[derive(Debug, PartialEq)]
pub struct SyncMeta {
    pub uuid: String,
    pub updatedAt: i64,
}

impl View for SyncMeta {
    type V = MetaV;

    open spec fn view(&self) -> MetaV {
        MetaV { uuid: self.uuid@, updated_at: self.updatedAt }
    }
}

impl Clone for SyncMeta {
    fn clone(&self) -> (res: Self)
        ensures
            res == *self,
    {
        SyncMeta { uuid: self.uuid.clone(), updatedAt: self.updatedAt }
    }
}

/// One manifest entry of a download request for periods.
#[allow(non_snake_case)]
#[derive(Debug, PartialEq)]
pub struct PeriodMeta {
    pub startDate: String,
    pub updatedAt: i64,
}

impl View for PeriodMeta {
    type V = PeriodMetaV;

    open spec fn view(&self) -> PeriodMetaV {
        PeriodMetaV { start_date: self.startDate@, updated_at: self.updatedAt }
    }
}

impl Clone for PeriodMeta {
    fn clone(&self) -> (res: Self)
        ensures
            res == *self,
    {
        PeriodMeta { startDate: self.startDate.clone(), updatedAt: self.updatedAt }
    }
}

// ---------------------------------------------------------------------------
// Request and response shapes.
// ---------------------------------------------------------------------------
/// One upload batch: all four kinds are applied in a single atomic unit.
#[derive(Debug, PartialEq)]
pub struct SyncUploadRequest {
    pub diaries: Vec<DiarySyncItem>,
    pub todos: Vec<TodoSyncItem>,
    pub periods: Vec<PeriodSyncItem>,
    pub images: Vec<DiaryImageSyncItem>,
}

/// How many items of each kind a successful request processed.
#[derive(Debug, PartialEq, Eq, Structural, Clone, Copy)]
pub struct SyncCounts {
    pub diaries: usize,
    pub todos: usize,
    pub periods: usize,
    pub images: usize,
}

/// The upload outcome: on failure the counts are zeroed, never partial.
#[derive(Debug, PartialEq)]
pub struct SyncUploadResponse {
    pub ok: bool,
    pub message: String,
    pub counts: SyncCounts,
}

/// A download request: the client's known-state manifest per kind.
#[derive(Debug, PartialEq)]
pub struct SyncDownloadRequest {
    pub diaries: Vec<SyncMeta>,
    pub todos: Vec<SyncMeta>,
    pub periods: Vec<PeriodMeta>,
}

/// The delta a client must apply to converge; images are always pulled on
/// demand instead and this list stays empty.
#[derive(Debug, PartialEq)]
pub struct SyncDownloadResponse {
    pub diaries: Vec<DiarySyncItem>,
    pub todos: Vec<TodoSyncItem>,
    pub periods: Vec<PeriodSyncItem>,
    pub images: Vec<DiaryImageSyncItem>,
}

/// The download outcome: per-kind counts beside the payload.
#[derive(Debug, PartialEq)]
pub struct SyncDownloadEnvelope {
    pub ok: bool,
    pub message: String,
    pub counts: SyncCounts,
    pub data: SyncDownloadResponse,
}

/// A metadata-summary request; the route carries no parameters.
#[derive(Debug, PartialEq)]
pub struct SyncMetaRequest {}

/// The full (key, updatedAt) summary per kind, unfiltered.
#[derive(Debug, PartialEq)]
pub struct SyncMetaResponse {
    pub diaries: Vec<SyncMeta>,
    pub todos: Vec<SyncMeta>,
    pub periods: Vec<PeriodMeta>,
}

/// Every distinct content hash currently stored.
#[derive(Debug, PartialEq)]
pub struct ImageHashListResponse {
    pub hashes: Vec<String>,
}

/// The full image-reference manifest.
#[derive(Debug, PartialEq)]
pub struct ImageRefsResponse {
    pub refs: Vec<DiaryImageRefItem>,
}

/// A batch of image blobs to upsert by hash.
#[derive(Debug, PartialEq)]
pub struct ImageUploadRequest {
    pub images: Vec<DiaryImageSyncItem>,
}

/// A batch of image references to upsert by (diaryUuid, fileName).
#[derive(Debug, PartialEq)]
pub struct ImageRefsUpsertRequest {
    pub refs: Vec<DiaryImageRefItem>,
}

/// A request for one image by its reference key.
#[allow(non_snake_case)]
#[derive(Debug, PartialEq)]
pub struct ImageFetchRequest {
    pub diaryUuid: String,
    pub fileName: String,
}

/// One fetched image: the reference's metadata joined with its blob.
#[allow(non_snake_case)]
#[derive(Debug, PartialEq)]
pub struct ImageFetchResponse {
    pub fileName: String,
    pub diaryUuid: String,
    pub hash: String,
    pub updatedAt: i64,
    pub blob: EncryptedBlob,
}

// ---------------------------------------------------------------------------
// View sequences of the executable lists.
// ---------------------------------------------------------------------------
pub open spec fn diary_views(s: Seq<DiarySyncItem>) -> Seq<DiaryV> {
    s.map_values(|d: DiarySyncItem| d@)
}

pub open spec fn todo_views(s: Seq<TodoSyncItem>) -> Seq<TodoV> {
    s.map_values(|t: TodoSyncItem| t@)
}

pub open spec fn period_views(s: Seq<PeriodSyncItem>) -> Seq<PeriodV> {
    s.map_values(|p: PeriodSyncItem| p@)
}

pub open spec fn image_views(s: Seq<DiaryImageSyncItem>) -> Seq<ImageV> {
    s.map_values(|i: DiaryImageSyncItem| i@)
}

pub open spec fn blob_views(s: Seq<ImageBlobItem>) -> Seq<ImageBlobV> {
    s.map_values(|b: ImageBlobItem| b@)
}

pub open spec fn ref_views(s: Seq<DiaryImageRefItem>) -> Seq<RefV> {
    s.map_values(|r: DiaryImageRefItem| r@)
}

pub open spec fn meta_views(s: Seq<SyncMeta>) -> Seq<MetaV> {
    s.map_values(|m: SyncMeta| m@)
}

pub open spec fn period_meta_views(s: Seq<PeriodMeta>) -> Seq<PeriodMetaV> {
    s.map_values(|m: PeriodMeta| m@)
}

pub open spec fn string_views(s: Seq<String>) -> Seq<Seq<char>> {
    s.map_values(|x: String| x@)
}

} // verus!
