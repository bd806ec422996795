//! The credential-checked entry points, one per operation.  Every entry point makes
//! the credential check exactly once, before doing any work or touching the
//! store: a bad credential yields a uniform denial and leaves the store
//! exactly as it was, whichever operation was mis-authenticated.

use crate::auth::{check_api_key, key_allows, provided_view, Gated};
use crate::delta::download_post;
use crate::models::{
    ImageFetchRequest, ImageFetchResponse, ImageHashListResponse, ImageRefsResponse,
    ImageRefsUpsertRequest, ImageUploadRequest, SyncDownloadEnvelope, SyncDownloadRequest,
    SyncMetaResponse, SyncUploadRequest, SyncUploadResponse,
};
use crate::store::{
    fetch_post, hashes_post, image_refs_upsert_post, image_upload_post, meta_post, refs_list_post,
    upload_post, SyncStore,
};
use vstd::prelude::*;

verus! {

/// The synchronization engine behind its credential gate.
pub struct SyncServer {
    pub api_key: Vec<u8>,
    pub store: SyncStore,
}

impl SyncServer {
    /// Whether a presented credential is accepted by this server.
    pub open spec fn allows(self, provided: Option<Seq<u8>>) -> bool {
        key_allows(self.api_key@, provided)
    }

    /// A fresh server with an empty store.  An empty `api_key` disables the
    /// credential check.
    pub fn new(api_key: Vec<u8>) -> (s: SyncServer)
        ensures
            s.api_key@ == api_key@,
            s.store@.wf(),
            s.store@.diaries.len() == 0,
            s.store@.todos.len() == 0,
            s.store@.periods.len() == 0,
            s.store@.image_blobs.len() == 0,
            s.store@.image_refs.len() == 0,
    {
        SyncServer { api_key, store: SyncStore::new() }
    }

    /// Apply one upload batch, once the credential check passes.
    pub fn sync_upload(&mut self, provided: Option<&Vec<u8>>, req: &SyncUploadRequest) -> (r: Gated<
        SyncUploadResponse,
    >)
        ensures
            final(self).api_key@ == old(self).api_key@,
            !old(self).allows(provided_view(provided)) ==> r is Denied && final(self).store@ == old(
                self,
            ).store@,
            old(self).allows(provided_view(provided)) ==> match r {
                Gated::Allowed(resp) => upload_post(old(self).store@, final(self).store@, *req, resp),
                Gated::Denied => false,
            },
            old(self).store@.wf() ==> final(self).store@.wf(),
    {
        if !check_api_key(&self.api_key, provided) {
            return Gated::Denied;
        }
        Gated::Allowed(self.store.upload_batch(req))
    }

    /// Answer one download request, once the credential check passes.
    pub fn sync_download(&self, provided: Option<&Vec<u8>>, req: &SyncDownloadRequest) -> (r: Gated<
        SyncDownloadEnvelope,
    >)
        ensures
            !self.allows(provided_view(provided)) ==> r is Denied,
            self.allows(provided_view(provided)) ==> match r {
                Gated::Allowed(env) => download_post(self.store@, *req, env),
                Gated::Denied => false,
            },
    {
        if !check_api_key(&self.api_key, provided) {
            return Gated::Denied;
        }
        Gated::Allowed(self.store.download(req))
    }

    /// The unfiltered (key, updatedAt) summary, once the credential check passes.
    pub fn sync_meta(&self, provided: Option<&Vec<u8>>) -> (r: Gated<SyncMetaResponse>)
        ensures
            !self.allows(provided_view(provided)) ==> r is Denied,
            self.allows(provided_view(provided)) ==> match r {
                Gated::Allowed(resp) => meta_post(self.store@, resp),
                Gated::Denied => false,
            },
    {
        if !check_api_key(&self.api_key, provided) {
            return Gated::Denied;
        }
        Gated::Allowed(self.store.meta_summary())
    }

    /// Fetch one image by its reference key, once the credential check passes.
    pub fn image_fetch(&self, provided: Option<&Vec<u8>>, req: &ImageFetchRequest) -> (r: Gated<
        Option<ImageFetchResponse>,
    >)
        ensures
            !self.allows(provided_view(provided)) ==> r is Denied,
            self.allows(provided_view(provided)) ==> match r {
                Gated::Allowed(found) => fetch_post(
                    self.store@,
                    req.diaryUuid@,
                    req.fileName@,
                    found,
                ),
                Gated::Denied => false,
            },
    {
        if !check_api_key(&self.api_key, provided) {
            return Gated::Denied;
        }
        Gated::Allowed(self.store.fetch_image(&req.diaryUuid, &req.fileName))
    }

    /// Every stored content hash, once the credential check passes.
    pub fn image_hashes(&self, provided: Option<&Vec<u8>>) -> (r: Gated<ImageHashListResponse>)
        ensures
            !self.allows(provided_view(provided)) ==> r is Denied,
            self.allows(provided_view(provided)) ==> match r {
                Gated::Allowed(resp) => hashes_post(self.store@, resp),
                Gated::Denied => false,
            },
    {
        if !check_api_key(&self.api_key, provided) {
            return Gated::Denied;
        }
        Gated::Allowed(self.store.hash_list())
    }

    /// The full reference manifest, once the credential check passes.
    pub fn image_refs(&self, provided: Option<&Vec<u8>>) -> (r: Gated<ImageRefsResponse>)
        ensures
            !self.allows(provided_view(provided)) ==> r is Denied,
            self.allows(provided_view(provided)) ==> match r {
                Gated::Allowed(resp) => refs_list_post(self.store@, resp),
                Gated::Denied => false,
            },
    {
        if !check_api_key(&self.api_key, provided) {
            return Gated::Denied;
        }
        Gated::Allowed(self.store.refs_list())
    }

    /// Apply one image-blob batch, once the credential check passes.
    pub fn image_upload(&mut self, provided: Option<&Vec<u8>>, req: &ImageUploadRequest) -> (r:
        Gated<()>)
        ensures
            final(self).api_key@ == old(self).api_key@,
            !old(self).allows(provided_view(provided)) ==> r is Denied && final(self).store@ == old(
                self,
            ).store@,
            old(self).allows(provided_view(provided)) ==> r is Allowed && image_upload_post(
                old(self).store@,
                final(self).store@,
                *req,
            ),
            old(self).store@.wf() ==> final(self).store@.wf(),
    {
        if !check_api_key(&self.api_key, provided) {
            return Gated::Denied;
        }
        self.store.image_upload_batch(req);
        Gated::Allowed(())
    }

    /// Apply one image-reference batch, once the credential check passes.
    pub fn image_refs_upsert(&mut self, provided: Option<&Vec<u8>>, req: &ImageRefsUpsertRequest)
        -> (r: Gated<()>)
        ensures
            final(self).api_key@ == old(self).api_key@,
            !old(self).allows(provided_view(provided)) ==> r is Denied && final(self).store@ == old(
                self,
            ).store@,
            old(self).allows(provided_view(provided)) ==> r is Allowed && image_refs_upsert_post(
                old(self).store@,
                final(self).store@,
                *req,
            ),
            old(self).store@.wf() ==> final(self).store@.wf(),
    {
        if !check_api_key(&self.api_key, provided) {
            return Gated::Denied;
        }
        self.store.image_refs_upsert_batch(req);
        Gated::Allowed(())
    }
}

} // verus!
