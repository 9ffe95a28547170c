//! The upload controller: the decision core of the three request handlers.
//!
//! Each handler is split around its backend calls, which only the host
//! process can perform. `start_upload` and `continue_upload` check the
//! request against the session store, update it, and return the one backend
//! action the host must perform; `start_upload_done` and
//! `continue_upload_done` turn the backend outcome into the response. The
//! host is expected to hold the controller under a lock, release it before
//! calling the backend, and never to perform I/O while holding it.

use vstd::prelude::*;

use crate::mime::resolve_content_type;
use crate::mime::spec_content_type;
use crate::models::Config;
use crate::models::ContinueUploadRequest;
use crate::models::Credential;
use crate::models::ErrorResponse;
use crate::models::FinishResponse;
use crate::models::FinishUploadRequest;
use crate::models::StartUploadRequest;
use crate::models::UploadInfo;
use crate::models::UploadResponse;
use crate::models::MAX_CHUNK_SIZE;
use crate::store::preserves_session;
use crate::store::SessionStore;

verus! {

/// Relies on `uuid::Uuid::new_v4` and the `Display` rendering of `Uuid`:
/// a fresh random version-4 identifier, rendered as the canonical
/// hyphenated lower-case hexadecimal string of 36 characters. Nothing is
/// assumed about which identifier comes back.
#[verifier::external_body]
fn fresh_handle() -> (r: String)
    ensures
        r@.len() == 36,
{
    uuid::Uuid::new_v4().to_string()
}

/// The one backend call `start` asks the host to perform: create an empty
/// append blob of this content type at `(account, container, blob_name)`,
/// authorized by `credential`.
pub struct CreateBlobAction {
    pub upload_id: String,
    pub credential: Credential,
    pub account: String,
    pub container: String,
    pub blob_name: String,
    pub content_type: String,
}

/// The one backend call `continue` asks the host to perform: append
/// `data` as one atomic block to the blob at `(account, container,
/// blob_name)`, authorized by `credential`.
pub struct AppendBlockAction {
    pub upload_id: String,
    pub credential: Credential,
    pub account: String,
    pub container: String,
    pub blob_name: String,
    pub data: Vec<u8>,
}

/// The upload session manager: backend coordinates, the session store, and
/// a ghost log of the append blocks issued so far, in issuance order.
pub struct Uploader {
    pub config: Config,
    pub store: SessionStore,
    pub appends: Ghost<Seq<(Seq<char>, Seq<u8>)>>,
}

impl Uploader {
    /// Well-formed: the store is well-formed, and every volatile binding
    /// belongs to a session that has its persistent row (a binding is made
    /// at `start` only, and a failed insert leaves one only under the
    /// colliding handle, which an earlier `start` owns).
    pub open spec fn wf(self) -> bool {
        &&& self.store.wf()
        &&& forall|h: Seq<char>| #[trigger] self.store.has_cred(h) ==> self.store.has_row(h)
    }

    /// A controller for an empty set of sessions.
    pub fn new(config: Config) -> (r: Uploader)
        ensures
            r.wf(),
            r.config == config,
            r.store.rows().len() == 0,
            r.store.creds().len() == 0,
            r.appends@ == Seq::<(Seq<char>, Seq<u8>)>::empty(),
    {
        Uploader { config, store: SessionStore::new(), appends: Ghost(Seq::empty()) }
    }

    /// Decision core of `start`: given the credential the host acquired (or
    /// its failure, `None`), mints a fresh session handle, resolves the
    /// content type from the file name's extension, binds the credential,
    /// inserts the persistent row, and hands back the create-blob action.
    /// The blob is created with the client-supplied content type; the
    /// resolved one is persisted.
    ///
    /// On failure nothing is disclosed but the fixed reason string, and no
    /// row is ever added. A failed insert happens only when the fresh
    /// handle collides with an existing session - never on an empty store -
    /// and, the binding being written volatile-first, leaves the just-bound
    /// credential behind under that session's handle.
    pub fn start_upload(&mut self, req: &StartUploadRequest, credential: Option<Credential>) -> (r:
        Result<CreateBlobAction, ErrorResponse>)
        requires
            old(self).wf(),
        ensures
            final(self).wf(),
            final(self).config == old(self).config,
            final(self).appends@ == old(self).appends@,
            preserves_session(old(self).store, final(self).store),
            match r {
                Ok(a) => {
                    &&& credential == Some(a.credential)
                    &&& !old(self).store.has_row(a.upload_id@)
                    &&& !old(self).store.has_cred(a.upload_id@)
                    &&& final(self).store.has_row(a.upload_id@)
                    &&& ({
                        let row = final(self).store.row(a.upload_id@);
                        &&& final(self).store.rows() == old(self).store.rows().push(row)
                        &&& row.upload_id == a.upload_id
                        &&& row.file_name == req.file_name
                        &&& row.file_size == req.file_size
                        &&& row.file_hash == req.file_hash
                        &&& Some(row.content_type@) == spec_content_type(req.file_name@)
                        &&& row.blob_access_token@ == "-"@
                        &&& row.blob_file_hash@ == "-"@
                    })
                    &&& forall|x: Seq<char>|
                        final(self).store.has_cred(x) <==> (old(self).store.has_cred(x) || x
                            == a.upload_id@)
                    &&& final(self).store.cred(a.upload_id@) == a.credential
                    &&& forall|x: Seq<char>|
                        x != a.upload_id@ && old(self).store.has_cred(x)
                            ==> final(self).store.cred(x) == old(self).store.cred(x)
                    &&& a.account == old(self).config.account
                    &&& a.container == old(self).config.container
                    &&& a.blob_name == req.file_name
                    &&& a.content_type == req.content_type
                },
                Err(e) => {
                    &&& final(self).store.rows() == old(self).store.rows()
                    &&& (e.error@ == "Failed to get token"@ || e.error@ == "file_ext not found"@
                        || e.error@ == "insert failed"@)
                    &&& (e.error@ == "Failed to get token"@ <==> credential is None)
                    &&& (e.error@ == "file_ext not found"@ <==> (credential is Some
                        && spec_content_type(req.file_name@) is None))
                    &&& ((credential is None || spec_content_type(req.file_name@) is None)
                        ==> final(self).store == old(self).store)
                    &&& (e.error@ == "insert failed"@ ==> old(self).store.rows().len() > 0)
                    &&& (e.error@ == "insert failed"@ ==> (exists|h: Seq<char>|
                        #[trigger] old(self).store.has_row(h) && final(self).store.has_cred(h)
                            && Some(final(self).store.cred(h)) == credential))
                    &&& forall|x: Seq<char>|
                        old(self).store.has_cred(x) ==> final(self).store.has_cred(x)
                    &&& forall|x: Seq<char>|
                        final(self).store.has_cred(x) ==> (old(self).store.has_cred(x)
                            || old(self).store.has_row(x))
                },
            },
    {
        proof {
            reveal_strlit("Failed to get token");
            reveal_strlit("file_ext not found");
            reveal_strlit("insert failed");
        }
        let cred = match credential {
            Some(c) => c,
            None => {
                return Err(ErrorResponse::new("Failed to get token"));
            },
        };
        let upload_id = fresh_handle();
        let content_type = match resolve_content_type(req.file_name.as_str()) {
            Some(ct) => ct,
            None => {
                return Err(ErrorResponse::new("file_ext not found"));
            },
        };
        // volatile first, then persistent: a failed insert leaves the
        // binding behind, which is harmless because the handle is not
        // disclosed
        self.store.bind_credential(&upload_id, cred);
        let ghost mid = *self;
        let info = UploadInfo {
            upload_id: upload_id.clone(),
            file_name: req.file_name.clone(),
            file_size: req.file_size,
            file_hash: req.file_hash.clone(),
            content_type,
            blob_access_token: "-".to_owned(),
            blob_file_hash: "-".to_owned(),
        };
        let inserted = self.store.reserve(info);
        if !inserted {
            proof {
                assert(mid.store.has_row(upload_id@));
                assert(old(self).store.has_row(upload_id@));
                assert forall|x: Seq<char>|
                    x != upload_id@ && old(self).store.has_row(x) implies self.store.has_row(x)
                        && self.store.row(x) == old(self).store.row(x) by {
                    let k = old(self).store.row_index(x);
                    old(self).store.lemma_row_at(k);
                    self.store.lemma_row_at(k);
                }
                let k0 = old(self).store.row_index(upload_id@);
                old(self).store.lemma_row_at(k0);
                self.store.lemma_row_at(k0);
                assert(self.store.creds() == mid.store.creds());
                assert(self.store.has_cred(upload_id@));
                assert(Some(self.store.cred(upload_id@)) == credential);
                assert forall|x: Seq<char>| self.store.has_cred(x) implies self.store.has_row(
                    x,
                ) by {
                    if x != upload_id@ {
                        assert(old(self).store.has_cred(x));
                        assert(old(self).store.has_row(x));
                    }
                }
            }
            proof {
                assert("insert failed"@.len() == 13);
                assert("Failed to get token"@.len() == 19);
                assert("file_ext not found"@.len() == 18);
            }
            return Err(ErrorResponse::new("insert failed"));
        }
        proof {
            assert forall|x: Seq<char>|
                old(self).store.has_row(x) implies self.store.has_row(x) && self.store.row(x)
                    == old(self).store.row(x) by {
                let k = old(self).store.row_index(x);
                old(self).store.lemma_row_at(k);
                assert(self.store.rows()[k] == old(self).store.rows()[k]);
                self.store.lemma_row_at(k);
            }
            let n2 = self.store.rows().len() - 1;
            self.store.lemma_row_at(n2);
            if old(self).store.has_cred(upload_id@) {
                assert(old(self).store.has_row(upload_id@));
            }
            assert forall|x: Seq<char>| self.store.has_cred(x) implies self.store.has_row(x) by {
                if x != upload_id@ {
                    assert(old(self).store.has_cred(x));
                    assert(old(self).store.has_row(x));
                }
            }
        }
        Ok(
            CreateBlobAction {
                upload_id,
                credential: cred,
                account: self.config.account.clone(),
                container: self.config.container.clone(),
                blob_name: req.file_name.clone(),
                content_type: req.content_type.clone(),
            },
        )
    }

    /// Turns the outcome of the create-blob call into the `start` response:
    /// the session handle and the advertised chunk size on success, the
    /// fixed reason on failure. A failed creation leaves the session's row
    /// and credential in place; they are dead state, never disclosed.
    pub fn start_upload_done(upload_id: String, created: bool) -> (r: Result<
        UploadResponse,
        ErrorResponse,
    >)
        ensures
            match r {
                Ok(resp) => {
                    &&& created
                    &&& resp.upload_id == upload_id
                    &&& resp.chunk_size == Some(MAX_CHUNK_SIZE)
                },
                Err(e) => {
                    &&& !created
                    &&& e.error@ == "put block failed"@
                },
            },
    {
        if created {
            Ok(UploadResponse { upload_id, chunk_size: Some(MAX_CHUNK_SIZE) })
        } else {
            Err(ErrorResponse::new("put block failed"))
        }
    }

    /// Decision core of `continue`: looks the session up, fetches its
    /// credential, takes the chunk, and hands back the append-block action;
    /// the store is never changed. Exactly one append is issued per
    /// successful call, recorded at the end of the ghost log; a rejected
    /// call issues none.
    pub fn continue_upload(&mut self, req: ContinueUploadRequest) -> (r: Result<
        AppendBlockAction,
        ErrorResponse,
    >)
        requires
            old(self).wf(),
        ensures
            final(self).wf(),
            final(self).config == old(self).config,
            final(self).store == old(self).store,
            preserves_session(old(self).store, final(self).store),
            match r {
                Ok(a) => {
                    &&& old(self).store.has_row(req.upload_id@)
                    &&& old(self).store.has_cred(req.upload_id@)
                    &&& a.upload_id == old(self).store.row(req.upload_id@).upload_id
                    &&& a.blob_name == old(self).store.row(req.upload_id@).file_name
                    &&& a.credential == old(self).store.cred(req.upload_id@)
                    &&& a.account == old(self).config.account
                    &&& a.container == old(self).config.container
                    &&& req.chunk_data == Some(a.data)
                    &&& final(self).appends@ == old(self).appends@.push((req.upload_id@, a.data@))
                },
                Err(e) => {
                    &&& final(self).appends@ == old(self).appends@
                    &&& (e.error@ == "query failed"@ || e.error@
                        == "continue_upload credentials not found"@ || e.error@
                        == "continue_upload chunk_data not found"@)
                    &&& (e.error@ == "query failed"@ <==> !old(self).store.has_row(req.upload_id@))
                    &&& (e.error@ == "continue_upload credentials not found"@
                        <==> (old(self).store.has_row(req.upload_id@)
                        && !old(self).store.has_cred(req.upload_id@)))
                    &&& (e.error@ == "continue_upload chunk_data not found"@
                        <==> (old(self).store.has_row(req.upload_id@)
                        && old(self).store.has_cred(req.upload_id@)
                        && req.chunk_data is None))
                },
            },
    {
        proof {
            reveal_strlit("query failed");
            reveal_strlit("continue_upload credentials not found");
            reveal_strlit("continue_upload chunk_data not found");
        }
        let info = match self.store.lookup(&req.upload_id) {
            Some(info) => info,
            None => {
                return Err(ErrorResponse::new("query failed"));
            },
        };
        let credential = match self.store.fetch_credential(&req.upload_id) {
            Some(c) => c,
            None => {
                return Err(ErrorResponse::new("continue_upload credentials not found"));
            },
        };
        let data = match req.chunk_data {
            Some(data) => data,
            None => {
                return Err(ErrorResponse::new("continue_upload chunk_data not found"));
            },
        };
        self.appends = Ghost(self.appends@.push((req.upload_id@, data@)));
        Ok(
            AppendBlockAction {
                upload_id: info.upload_id,
                credential,
                account: self.config.account.clone(),
                container: self.config.container.clone(),
                blob_name: info.file_name,
                data,
            },
        )
    }

    /// Turns the outcome of the append-block call into the `continue`
    /// response: the session handle with no chunk size on success, the
    /// fixed reason on failure. A failed append leaves the session open;
    /// the client may retry.
    pub fn continue_upload_done(upload_id: String, appended: bool) -> (r: Result<
        UploadResponse,
        ErrorResponse,
    >)
        ensures
            match r {
                Ok(resp) => {
                    &&& appended
                    &&& resp.upload_id == upload_id
                    &&& resp.chunk_size is None
                },
                Err(e) => {
                    &&& !appended
                    &&& e.error@ == "put block failed"@
                },
            },
    {
        if appended {
            Ok(UploadResponse { upload_id, chunk_size: None })
        } else {
            Err(ErrorResponse::new("put block failed"))
        }
    }

    /// `finish`: echoes the session handle with an empty hash. The hash
    /// field is reserved for future verification; neither the persistent
    /// row nor the volatile credential is removed.
    pub fn finish_upload(&self, req: &FinishUploadRequest) -> (r: Result<
        FinishResponse,
        ErrorResponse,
    >)
        ensures
            match r {
                Ok(resp) => {
                    &&& resp.upload_id == req.upload_id
                    &&& resp.file_hash@ == Seq::<char>::empty()
                },
                Err(_) => false,
            },
    {
        Ok(FinishResponse { upload_id: req.upload_id.clone(), file_hash: String::new() })
    }
}

} // verus!
