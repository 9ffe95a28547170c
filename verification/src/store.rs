//! The session store: a persistent mapping from session handle to upload
//! metadata (one row per session, `upload_id` unique) and a volatile mapping
//! from session handle to the backend credential bound at `start`. Both live
//! in process memory; sessions do not survive a restart.

use vstd::prelude::*;

use crate::models::Credential;
use crate::models::UploadInfo;

verus! {

pub struct SessionStore {
    rows: Vec<UploadInfo>,
    creds: Vec<(String, Credential)>,
}

/// How any one controller call may change the session store: a session that
/// has its row keeps it unchanged, and a session that has a credential
/// keeps one (a handle collision at `start` may rebind it).
pub open spec fn preserves_session(pre: SessionStore, post: SessionStore) -> bool {
    &&& forall|h: Seq<char>|
        #[trigger] pre.has_row(h) ==> post.has_row(h) && post.row(h) == pre.row(h)
    &&& forall|h: Seq<char>| #[trigger] pre.has_cred(h) ==> post.has_cred(h)
}

impl SessionStore {
    /// The persistent rows, in insertion order.
    pub closed spec fn rows(self) -> Seq<UploadInfo> {
        self.rows@
    }

    /// The volatile credential bindings.
    pub closed spec fn creds(self) -> Seq<(String, Credential)> {
        self.creds@
    }

    /// A row with this handle exists.
    pub open spec fn has_row(self, id: Seq<char>) -> bool {
        exists|i: int| 0 <= i < self.rows().len() && (#[trigger] self.rows()[i]).upload_id@ == id
    }

    /// Index of the row with this handle.
    pub open spec fn row_index(self, id: Seq<char>) -> int {
        choose|i: int| 0 <= i < self.rows().len() && (#[trigger] self.rows()[i]).upload_id@ == id
    }

    /// The row with this handle.
    pub open spec fn row(self, id: Seq<char>) -> UploadInfo {
        self.rows()[self.row_index(id)]
    }

    /// A credential is bound to this handle.
    pub open spec fn has_cred(self, id: Seq<char>) -> bool {
        exists|i: int| 0 <= i < self.creds().len() && (#[trigger] self.creds()[i]).0@ == id
    }

    /// Index of the binding of this handle.
    pub open spec fn cred_index(self, id: Seq<char>) -> int {
        choose|i: int| 0 <= i < self.creds().len() && (#[trigger] self.creds()[i]).0@ == id
    }

    /// The credential bound to this handle.
    pub open spec fn cred(self, id: Seq<char>) -> Credential {
        self.creds()[self.cred_index(id)].1
    }

    /// Well-formed: a handle appears at most once among the rows, and at
    /// most once among the credential bindings.
    pub open spec fn wf(self) -> bool {
        &&& forall|i: int, j: int|
            0 <= i < j < self.rows().len() ==> (#[trigger] self.rows()[i]).upload_id@ != (
            #[trigger] self.rows()[j]).upload_id@
        &&& forall|i: int, j: int|
            0 <= i < j < self.creds().len() ==> (#[trigger] self.creds()[i]).0@ != (
            #[trigger] self.creds()[j]).0@
    }

    /// In a well-formed store the row of a handle stands at one index only.
    pub proof fn lemma_row_at(self, i: int)
        requires
            self.wf(),
            0 <= i < self.rows().len(),
        ensures
            self.has_row(self.rows()[i].upload_id@),
            self.row_index(self.rows()[i].upload_id@) == i,
            self.row(self.rows()[i].upload_id@) == self.rows()[i],
    {
        let id = self.rows()[i].upload_id@;
        assert(self.has_row(id));
        let j = self.row_index(id);
        if i != j {
            if i < j {
                assert(self.rows()[i].upload_id@ != self.rows()[j].upload_id@);
            } else {
                assert(self.rows()[j].upload_id@ != self.rows()[i].upload_id@);
            }
        }
    }

    /// In a well-formed store the binding of a handle stands at one index
    /// only.
    pub proof fn lemma_cred_at(self, i: int)
        requires
            self.wf(),
            0 <= i < self.creds().len(),
        ensures
            self.has_cred(self.creds()[i].0@),
            self.cred_index(self.creds()[i].0@) == i,
            self.cred(self.creds()[i].0@) == self.creds()[i].1,
    {
        let id = self.creds()[i].0@;
        assert(self.has_cred(id));
        let j = self.cred_index(id);
        if i != j {
            if i < j {
                assert(self.creds()[i].0@ != self.creds()[j].0@);
            } else {
                assert(self.creds()[j].0@ != self.creds()[i].0@);
            }
        }
    }

    /// An empty store.
    pub fn new() -> (r: SessionStore)
        ensures
            r.rows().len() == 0,
            r.creds().len() == 0,
            r.wf(),
    {
        SessionStore { rows: Vec::new(), creds: Vec::new() }
    }

    /// Inserts a new row. Fails, changing nothing, exactly when a row with
    /// the same handle already exists.
    pub fn reserve(&mut self, info: UploadInfo) -> (r: bool)
        requires
            old(self).wf(),
        ensures
            final(self).wf(),
            final(self).creds() == old(self).creds(),
            r == !old(self).has_row(info.upload_id@),
            r ==> final(self).rows() == old(self).rows().push(info),
            !r ==> final(self).rows() == old(self).rows(),
    {
        let n = self.rows.len();
        let mut i: usize = 0;
        while i < n
            invariant
                *self == *old(self),
                old(self).wf(),
                n == self.rows().len(),
                i <= n,
                forall|j: int|
                    0 <= j < i ==> (#[trigger] self.rows()[j]).upload_id@ != info.upload_id@,
            decreases n - i,
        {
            if self.rows[i].upload_id == info.upload_id {
                proof {
                    self.lemma_row_at(i as int);
                }
                return false;
            }
            i = i + 1;
        }
        proof {
            if self.has_row(info.upload_id@) {
                let k = self.row_index(info.upload_id@);
                assert(self.rows()[k].upload_id@ == info.upload_id@);
                assert(false);
            }
        }
        let ghost pre = *self;
        self.rows.push(info);
        proof {
            assert(self.creds() == pre.creds());
            assert forall|a: int, b: int| 0 <= a < b < self.rows().len() implies (
            #[trigger] self.rows()[a]).upload_id@ != (#[trigger] self.rows()[b]).upload_id@ by {
                if b < pre.rows().len() {
                    assert(pre.rows()[a].upload_id@ != pre.rows()[b].upload_id@);
                } else {
                    assert(self.rows()[b] == info);
                    assert(pre.rows()[a].upload_id@ != info.upload_id@);
                }
            }
        }
        true
    }

    /// The row with this handle, when one exists.
    pub fn lookup(&self, upload_id: &String) -> (r: Option<UploadInfo>)
        requires
            self.wf(),
        ensures
            match r {
                Some(info) => self.has_row(upload_id@) && info == self.row(upload_id@),
                None => !self.has_row(upload_id@),
            },
    {
        let n = self.rows.len();
        let mut i: usize = 0;
        while i < n
            invariant
                n == self.rows().len(),
                i <= n,
                self.wf(),
                forall|j: int| 0 <= j < i ==> (#[trigger] self.rows()[j]).upload_id@ != upload_id@,
            decreases n - i,
        {
            if self.rows[i].upload_id == *upload_id {
                let found = &self.rows[i];
                let info = UploadInfo {
                    upload_id: found.upload_id.clone(),
                    file_name: found.file_name.clone(),
                    file_size: found.file_size,
                    file_hash: found.file_hash.clone(),
                    content_type: found.content_type.clone(),
                    blob_access_token: found.blob_access_token.clone(),
                    blob_file_hash: found.blob_file_hash.clone(),
                };
                proof {
                    assert(info == self.rows()[i as int]);
                    self.lemma_row_at(i as int);
                }
                return Some(info);
            }
            i = i + 1;
        }
        proof {
            if self.has_row(upload_id@) {
                let k = self.row_index(upload_id@);
                assert(self.rows()[k].upload_id@ == upload_id@);
                assert(false);
            }
        }
        None
    }

    /// Binds a credential to a handle, replacing any binding the handle
    /// already had.
    pub fn bind_credential(&mut self, upload_id: &String, cred: Credential)
        requires
            old(self).wf(),
        ensures
            final(self).wf(),
            final(self).rows() == old(self).rows(),
            forall|x: Seq<char>|
                final(self).has_cred(x) <==> (old(self).has_cred(x) || x == upload_id@),
            final(self).has_cred(upload_id@),
            final(self).cred(upload_id@) == cred,
            forall|x: Seq<char>|
                x != upload_id@ && old(self).has_cred(x) ==> final(self).cred(x) == old(self).cred(
                    x,
                ),
    {
        let n = self.creds.len();
        let mut i: usize = 0;
        while i < n
            invariant
                *self == *old(self),
                old(self).wf(),
                n == self.creds().len(),
                i <= n,
                forall|j: int| 0 <= j < i ==> (#[trigger] self.creds()[j]).0@ != upload_id@,
            decreases n - i,
        {
            if self.creds[i].0 == *upload_id {
                let ghost pre = *self;
                let entry = vstd::std_specs::vec::vec_index_mut(&mut self.creds, i);
                *entry = (upload_id.clone(), cred);
                proof {
                    assert(self.rows() == pre.rows());
                    assert(self.creds().len() == pre.creds().len());
                    assert(forall|j: int|
                        0 <= j < self.creds().len() && j != i ==> #[trigger] self.creds()[j]
                            == pre.creds()[j]);
                    assert(self.creds()[i as int].0@ == upload_id@);
                    assert(self.creds()[i as int].1 == cred);
                    assert forall|a: int, b: int| 0 <= a < b < self.creds().len() implies (
                    #[trigger] self.creds()[a]).0@ != (#[trigger] self.creds()[b]).0@ by {
                        assert(pre.creds()[a].0@ != pre.creds()[b].0@);
                        assert(self.creds()[a].0@ == pre.creds()[a].0@);
                        assert(self.creds()[b].0@ == pre.creds()[b].0@);
                    }
                    assert(self.wf());
                    assert forall|x: Seq<char>|
                        self.has_cred(x) <==> (pre.has_cred(x) || x == upload_id@) by {
                        if self.has_cred(x) {
                            let k = self.cred_index(x);
                            assert(pre.creds()[k].0@ == self.creds()[k].0@);
                            assert(pre.has_cred(x));
                        }
                        if pre.has_cred(x) {
                            let k = pre.cred_index(x);
                            assert(self.creds()[k].0@ == pre.creds()[k].0@);
                            assert(self.has_cred(x));
                        }
                        if x == upload_id@ {
                            assert(self.creds()[i as int].0@ == x);
                            assert(self.has_cred(x));
                        }
                    }
                    self.lemma_cred_at(i as int);
                    assert forall|x: Seq<char>|
                        x != upload_id@ && pre.has_cred(x) implies self.cred(x) == pre.cred(x) by {
                        let k = pre.cred_index(x);
                        pre.lemma_cred_at(k);
                        assert(self.creds()[k].0@ == pre.creds()[k].0@);
                        assert(k != i);
                        self.lemma_cred_at(k);
                    }
                }
                return ;
            }
            i = i + 1;
        }
        proof {
            if self.has_cred(upload_id@) {
                let k = self.cred_index(upload_id@);
                assert(self.creds()[k].0@ == upload_id@);
                assert(false);
            }
        }
        let ghost pre = *self;
        self.creds.push((upload_id.clone(), cred));
        proof {
            assert(self.rows() == pre.rows());
            let n2 = self.creds().len() - 1;
            assert(self.creds() == pre.creds().push(self.creds()[n2]));
            assert(self.creds()[n2].0@ == upload_id@);
            assert(self.creds()[n2].1 == cred);
            assert forall|a: int, b: int| 0 <= a < b < self.creds().len() implies (
            #[trigger] self.creds()[a]).0@ != (#[trigger] self.creds()[b]).0@ by {
                if b < pre.creds().len() {
                    assert(pre.creds()[a].0@ != pre.creds()[b].0@);
                } else {
                    assert(self.creds()[b].0@ == upload_id@);
                    assert(pre.creds()[a].0@ != upload_id@);
                }
            }
            assert(self.wf());
            assert forall|x: Seq<char>|
                self.has_cred(x) <==> (pre.has_cred(x) || x == upload_id@) by {
                if self.has_cred(x) && x != upload_id@ {
                    let k = self.cred_index(x);
                    assert(k < pre.creds().len());
                    assert(pre.creds()[k].0@ == x);
                    assert(pre.has_cred(x));
                }
                if pre.has_cred(x) {
                    let k = pre.cred_index(x);
                    assert(self.creds()[k].0@ == pre.creds()[k].0@);
                    assert(self.has_cred(x));
                }
                if x == upload_id@ {
                    assert(self.creds()[n2].0@ == x);
                    assert(self.has_cred(x));
                }
            }
            self.lemma_cred_at(n2);
            assert forall|x: Seq<char>|
                x != upload_id@ && pre.has_cred(x) implies self.cred(x) == pre.cred(x) by {
                let k = pre.cred_index(x);
                pre.lemma_cred_at(k);
                assert(self.creds()[k].0@ == pre.creds()[k].0@);
                self.lemma_cred_at(k);
            }
        }
    }

    /// The credential bound to this handle, when one is.
    pub fn fetch_credential(&self, upload_id: &String) -> (r: Option<Credential>)
        requires
            self.wf(),
        ensures
            match r {
                Some(c) => self.has_cred(upload_id@) && c == self.cred(upload_id@),
                None => !self.has_cred(upload_id@),
            },
    {
        let n = self.creds.len();
        let mut i: usize = 0;
        while i < n
            invariant
                n == self.creds().len(),
                i <= n,
                self.wf(),
                forall|j: int| 0 <= j < i ==> (#[trigger] self.creds()[j]).0@ != upload_id@,
            decreases n - i,
        {
            if self.creds[i].0 == *upload_id {
                proof {
                    self.lemma_cred_at(i as int);
                }
                return Some(self.creds[i].1);
            }
            i = i + 1;
        }
        proof {
            if self.has_cred(upload_id@) {
                let k = self.cred_index(upload_id@);
                assert(self.creds()[k].0@ == upload_id@);
                assert(false);
            }
        }
        None
    }

    /// Evicts the binding of a handle. Returns whether one existed; the
    /// rows are untouched.
    pub fn remove_credential(&mut self, upload_id: &String) -> (r: bool)
        requires
            old(self).wf(),
        ensures
            final(self).wf(),
            final(self).rows() == old(self).rows(),
            r == old(self).has_cred(upload_id@),
            forall|x: Seq<char>|
                final(self).has_cred(x) <==> (old(self).has_cred(x) && x != upload_id@),
            forall|x: Seq<char>|
                x != upload_id@ && old(self).has_cred(x) ==> final(self).cred(x) == old(self).cred(
                    x,
                ),
    {
        let n = self.creds.len();
        let mut i: usize = 0;
        while i < n
            invariant
                *self == *old(self),
                old(self).wf(),
                n == self.creds().len(),
                i <= n,
                forall|j: int| 0 <= j < i ==> (#[trigger] self.creds()[j]).0@ != upload_id@,
            decreases n - i,
        {
            if self.creds[i].0 == *upload_id {
                let ghost pre = *self;
                self.creds.remove(i);
                proof {
                    pre.lemma_cred_at(i as int);
                    pre.creds().remove_ensures(i as int);
                    assert(self.rows() == pre.rows());
                    assert(self.creds() == pre.creds().remove(i as int));
                    assert(self.creds().len() == pre.creds().len() - 1);
                    assert(forall|j: int|
                        0 <= j < i ==> #[trigger] self.creds()[j] == pre.creds()[j]);
                    assert(forall|j: int|
                        i <= j < self.creds().len() ==> #[trigger] self.creds()[j] == pre.creds()[j
                            + 1]);
                    assert forall|a: int, b: int| 0 <= a < b < self.creds().len() implies (
                    #[trigger] self.creds()[a]).0@ != (#[trigger] self.creds()[b]).0@ by {
                        let a2 = if a < i { a } else { a + 1 };
                        let b2 = if b < i { b } else { b + 1 };
                        assert(self.creds()[a] == pre.creds()[a2]);
                        assert(self.creds()[b] == pre.creds()[b2]);
                        assert(pre.creds()[a2].0@ != pre.creds()[b2].0@);
                    }
                    assert(self.wf());
                    assert forall|x: Seq<char>|
                        self.has_cred(x) <==> (pre.has_cred(x) && x != upload_id@) by {
                        if self.has_cred(x) {
                            let k = self.cred_index(x);
                            let k2 = if k < i { k } else { k + 1 };
                            assert(self.creds()[k] == pre.creds()[k2]);
                            assert(pre.has_cred(x));
                            if x == upload_id@ {
                                pre.lemma_cred_at(k2);
                                assert(k2 == i);
                                assert(false);
                            }
                        }
                        if pre.has_cred(x) && x != upload_id@ {
                            let k = pre.cred_index(x);
                            pre.lemma_cred_at(k);
                            assert(k != i);
                            let k2 = if k < i { k } else { k - 1 };
                            assert(self.creds()[k2] == pre.creds()[k]);
                            assert(self.has_cred(x));
                        }
                    }
                    assert forall|x: Seq<char>|
                        x != upload_id@ && pre.has_cred(x) implies self.cred(x) == pre.cred(x) by {
                        let k = pre.cred_index(x);
                        pre.lemma_cred_at(k);
                        assert(k != i);
                        let k2 = if k < i { k } else { k - 1 };
                        assert(self.creds()[k2] == pre.creds()[k]);
                        self.lemma_cred_at(k2);
                    }
                }
                return true;
            }
            i = i + 1;
        }
        proof {
            if self.has_cred(upload_id@) {
                let k = self.cred_index(upload_id@);
                assert(self.creds()[k].0@ == upload_id@);
                assert(false);
            }
        }
        false
    }
}

} // verus!
