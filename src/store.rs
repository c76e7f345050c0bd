use vstd::prelude::*;
use crate::error::Error;
use crate::params::ID_LEN;

verus! {

/// The number of bytes in each coordinate of a P256 public key.
pub const COORD_LEN: usize = 32;

/// A P256 public key as its two affine coordinates, big-endian.
#[derive(Debug)]
pub struct PublicKey {
    pub x: Vec<u8>,
    pub y: Vec<u8>,
}

/// A registered credential: its id, public key, key handle and creation context.
#[derive(Debug)]
pub struct Credential {
    pub id: Vec<u8>,
    pub public_key: PublicKey,
    pub key_handle: String,
    pub creation_params: String,
    pub created_at: u64,
}

/// The mathematical value of a credential.
pub struct CredentialView {
    pub id: Seq<u8>,
    pub x: Seq<u8>,
    pub y: Seq<u8>,
    pub key_handle: Seq<char>,
    pub creation_params: Seq<char>,
    pub created_at: u64,
}

impl View for Credential {
    type V = CredentialView;

    open spec fn view(&self) -> CredentialView {
        CredentialView {
            id: self.id@,
            x: self.public_key.x@,
            y: self.public_key.y@,
            key_handle: self.key_handle@,
            creation_params: self.creation_params@,
            created_at: self.created_at,
        }
    }
}

/// Whether a credential may be registered: a full-size id and public key and a
/// non-empty key handle.
pub open spec fn valid_credential(c: CredentialView) -> bool {
    c.id.len() == ID_LEN && c.x.len() == COORD_LEN && c.y.len() == COORD_LEN
        && c.key_handle.len() > 0
}

/// Whether `a` and `b` hold the same bytes.
pub fn same_bytes(a: &Vec<u8>, b: &Vec<u8>) -> (r: bool)
    ensures
        r == (a@ == b@),
{
    if a.len() != b.len() {
        return false;
    }
    let mut i: usize = 0;
    while i < a.len()
        invariant
            i <= a@.len(),
            a@.len() == b@.len(),
            forall|j: int| 0 <= j < i ==> a@[j] == b@[j],
        decreases a@.len() - i,
    {
        if a[i] != b[i] {
            return false;
        }
        i = i + 1;
    }
    assert(a@ =~= b@);
    true
}

/// The credentials that are registered, each under its own id.
pub struct CredentialStore {
    credentials: Vec<Credential>,
    model: Ghost<Map<Seq<u8>, CredentialView>>,
}

impl View for CredentialStore {
    type V = Map<Seq<u8>, CredentialView>;

    closed spec fn view(&self) -> Map<Seq<u8>, CredentialView> {
        self.model@
    }
}

impl CredentialStore {
    /// The store holds each credential of its map once, under its own id, and only
    /// valid credentials.
    pub closed spec fn wf(&self) -> bool {
        &&& forall|i: int|
            0 <= i < self.credentials@.len() ==> {
                &&& self.model@.contains_key(#[trigger] self.credentials@[i]@.id)
                &&& self.model@[self.credentials@[i]@.id] == self.credentials@[i]@
            }
        &&& forall|i: int, j: int|
            0 <= i < j < self.credentials@.len() ==> #[trigger] self.credentials@[i]@.id
                != #[trigger] self.credentials@[j]@.id
        &&& forall|k: Seq<u8>|
            #[trigger] self.model@.contains_key(k) ==> exists|i: int|
                0 <= i < self.credentials@.len() && #[trigger] self.credentials@[i]@.id == k
        &&& forall|k: Seq<u8>|
            #[trigger] self.model@.contains_key(k) ==> valid_credential(self.model@[k])
                && self.model@[k].id == k
    }

    /// An empty store.
    pub fn new() -> (r: CredentialStore)
        ensures
            r.wf(),
            r@ == Map::<Seq<u8>, CredentialView>::empty(),
    {
        CredentialStore { credentials: Vec::new(), model: Ghost(Map::empty()) }
    }

    /// The position of the credential with id `id`, if one is registered.
    fn position(&self, id: &Vec<u8>) -> (r: Option<usize>)
        requires
            self.wf(),
        ensures
            r.is_some() == self@.contains_key(id@),
            r.is_some() ==> r.unwrap() < self.credentials@.len()
                && self.credentials@[r.unwrap() as int]@.id == id@,
    {
        let mut i: usize = 0;
        while i < self.credentials.len()
            invariant
                self.wf(),
                i <= self.credentials@.len(),
                forall|j: int| 0 <= j < i ==> #[trigger] self.credentials@[j]@.id != id@,
            decreases self.credentials@.len() - i,
        {
            if same_bytes(&self.credentials[i].id, id) {
                assert(self.model@.contains_key(self.credentials@[i as int]@.id));
                return Some(i);
            }
            i = i + 1;
        }
        proof {
            if self@.contains_key(id@) {
                let k = choose|j: int|
                    0 <= j < self.credentials@.len() && #[trigger] self.credentials@[j]@.id == id@;
                assert(self.credentials@[k]@.id == id@);
            }
        }
        None
    }

    /// Whether a credential with id `id` is registered.
    pub fn contains(&self, id: &Vec<u8>) -> (r: bool)
        requires
            self.wf(),
        ensures
            r == self@.contains_key(id@),
    {
        self.position(id).is_some()
    }

    /// Registers `c` under its id; refuses an id that is already registered.
    pub fn register(&mut self, c: Credential) -> (r: Result<(), Error>)
        requires
            old(self).wf(),
            valid_credential(c@),
        ensures
            final(self).wf(),
            old(self)@.contains_key(c@.id) ==> r == Err::<(), Error>(Error::DuplicateId)
                && final(self)@ == old(self)@,
            !old(self)@.contains_key(c@.id) ==> r == Ok::<(), Error>(())
                && final(self)@ == old(self)@.insert(c@.id, c@),
    {
        if self.position(&c.id).is_some() {
            return Err(Error::DuplicateId);
        }
        let ghost cv = c@;
        let ghost old_creds = self.credentials@;
        self.credentials.push(c);
        self.model = Ghost(self.model@.insert(cv.id, cv));
        proof {
            assert(self.credentials@[old_creds.len() as int]@ == cv);
            assert forall|k: Seq<u8>| #[trigger] self.model@.contains_key(k) implies exists|i: int|
                0 <= i < self.credentials@.len() && #[trigger] self.credentials@[i]@.id == k by {
                if k == cv.id {
                    assert(self.credentials@[old_creds.len() as int]@.id == k);
                } else {
                    let i = choose|i: int| 0 <= i < old_creds.len() && #[trigger] old_creds[i]@.id == k;
                    assert(self.credentials@[i]@.id == k);
                }
            }
        }
        Ok(())
    }

    /// The credential registered under `id`.
    pub fn resolve(&self, id: &Vec<u8>) -> (r: Result<&Credential, Error>)
        requires
            self.wf(),
        ensures
            self@.contains_key(id@) ==> r.is_ok() && r.unwrap()@ == self@[id@],
            !self@.contains_key(id@) ==> r == Err::<&Credential, Error>(Error::CredentialNotFound),
    {
        match self.position(id) {
            Some(i) => Ok(&self.credentials[i]),
            None => Err(Error::CredentialNotFound),
        }
    }

    /// Removes the credential registered under `id` and hands back its key handle, for
    /// the secure boundary to release; an id that is not registered is refused.
    pub fn revoke(&mut self, id: &Vec<u8>) -> (r: Result<String, Error>)
        requires
            old(self).wf(),
        ensures
            final(self).wf(),
            old(self)@.contains_key(id@) ==> r.is_ok() && r.unwrap()@ == old(self)@[id@].key_handle
                && final(self)@ == old(self)@.remove(id@),
            !old(self)@.contains_key(id@) ==> r == Err::<String, Error>(Error::CredentialNotFound)
                && final(self)@ == old(self)@,
    {
        match self.position(id) {
            None => Err(Error::CredentialNotFound),
            Some(i) => {
                let ghost old_creds = self.credentials@;
                let c = self.credentials.remove(i);
                self.model = Ghost(self.model@.remove(id@));
                proof {
                    assert(old_creds[i as int]@ == c@);
                    assert forall|j: int| 0 <= j < self.credentials@.len() implies
                        #[trigger] self.credentials@[j]@.id != id@ by {
                        if j < i {
                            assert(self.credentials@[j] == old_creds[j]);
                        } else {
                            assert(self.credentials@[j] == old_creds[j + 1]);
                        }
                    }
                    assert forall|k: Seq<u8>| #[trigger] self.model@.contains_key(k) implies exists|j: int|
                        0 <= j < self.credentials@.len() && #[trigger] self.credentials@[j]@.id == k by {
                        let j = choose|j: int| 0 <= j < old_creds.len() && #[trigger] old_creds[j]@.id == k;
                        if j < i {
                            assert(self.credentials@[j]@.id == k);
                        } else {
                            assert(self.credentials@[j - 1]@.id == k);
                        }
                    }
                }
                Ok(c.key_handle)
            },
        }
    }
}

} // verus!
