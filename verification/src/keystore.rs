use vstd::prelude::*;

use crate::error::Error;

verus! {

/// How many fresh draws `create` attempts before it reports the random
/// source as failing: a collision of a 64-character draw with a stored
/// identifier is already vanishingly rare.
const CREATE_RETRIES: usize = 16;

/// One stored API key record: a public access identifier, the private
/// secret handed out once at creation, an optional label, and the logical
/// expiry time (keys are never physically deleted).
pub struct AccessKey {
    pub id: u32,
    pub access: String,
    pub secret: String,
    pub description: Option<String>,
    pub expired_at: Option<i64>,
}

/// Mathematical image of an [`AccessKey`].
pub struct AccessKeyView {
    pub id: u32,
    pub access: Seq<char>,
    pub secret: Seq<char>,
    pub description: Option<Seq<char>>,
    pub expired_at: Option<i64>,
}

pub open spec fn opt_str_view(o: Option<String>) -> Option<Seq<char>> {
    match o {
        Some(s) => Some(s@),
        None => None,
    }
}

impl View for AccessKey {
    type V = AccessKeyView;

    open spec fn view(&self) -> AccessKeyView {
        AccessKeyView {
            id: self.id,
            access: self.access@,
            secret: self.secret@,
            description: opt_str_view(self.description),
            expired_at: self.expired_at,
        }
    }
}

/// What `read_all` reports about a key: everything but the secret, which
/// the read path never returns.
pub struct KeyListing {
    pub id: u32,
    pub access: String,
    pub description: Option<String>,
    pub expired_at: Option<i64>,
}

/// The fixed 74-character credential alphabet: upper and lower case
/// letters, digits, and a small symbol set.
pub open spec fn spec_alphabet() -> Seq<char> {
    "abcdefghijklmnopqrstuvwxyzABCDEFGHIJKLMNOPQRSTUVWXYZ0123456789!@#$%^&*_-+="@
}

/// A generated credential: 64 characters, each drawn from the alphabet.
pub open spec fn key_generated(s: Seq<char>) -> bool {
    &&& s.len() == 64
    &&& forall|i: int| 0 <= i < s.len() ==> spec_alphabet().contains(#[trigger] s[i])
}

/// Relies on rand::Rng::gen_range over rand::thread_rng, a cryptographically
/// secure generator: a uniform draw below `n` (empty ranges are refused by
/// `requires`, since gen_range panics on them).
#[verifier::external_body]
fn random_index(n: usize) -> (r: usize)
    requires
        n > 0,
    ensures
        r < n,
{
    rand::Rng::gen_range(&mut rand::thread_rng(), 0..n)
}

fn alphabet() -> (r: &'static str)
    ensures
        r@ == spec_alphabet(),
        r@.len() == 74,
{
    let a = "abcdefghijklmnopqrstuvwxyzABCDEFGHIJKLMNOPQRSTUVWXYZ0123456789!@#$%^&*_-+=";
    proof {
        reveal_strlit("abcdefghijklmnopqrstuvwxyzABCDEFGHIJKLMNOPQRSTUVWXYZ0123456789!@#$%^&*_-+=");
    }
    a
}

/// Draws one fresh credential: 64 independent uniform picks from the
/// alphabet, concatenated.
pub fn generate_key() -> (r: String)
    ensures
        key_generated(r@),
{
    let alpha = alphabet();
    let mut s = String::new();
    let mut n: usize = 0;
    while n < 64
        invariant
            n <= 64,
            s@.len() == n,
            alpha@ == spec_alphabet(),
            alpha@.len() == 74,
            forall|i: int| 0 <= i < s@.len() ==> spec_alphabet().contains(#[trigger] s@[i]),
        decreases 64 - n,
    {
        let idx = random_index(74);
        let c = alpha.substring_char(idx, idx + 1);
        proof {
            assert(c@ =~= seq![spec_alphabet()[idx as int]]);
            assert(spec_alphabet().contains(spec_alphabet()[idx as int]));
        }
        s.append(c);
        n += 1;
    }
    s
}

/// There is a key with this access identifier.
pub open spec fn key_exists(s: Seq<AccessKeyView>, access: Seq<char>) -> bool {
    exists|i: int| 0 <= i < s.len() && s[i].access == access
}

/// Index of the key with this access identifier (unique under `KeyStore::wf`).
pub open spec fn key_index(s: Seq<AccessKeyView>, access: Seq<char>) -> int {
    choose|i: int| 0 <= i < s.len() && s[i].access == access
}

/// A key is live until its logical expiry time: expiring a key at `t`
/// makes it unusable at `t` and ever after.
pub open spec fn key_live_at(k: AccessKeyView, now: i64) -> bool {
    match k.expired_at {
        None => true,
        Some(t) => t > now,
    }
}

/// There is a key with this access identifier and it is live at `now`.
pub open spec fn live_key_exists(s: Seq<AccessKeyView>, access: Seq<char>, now: i64) -> bool {
    exists|i: int| 0 <= i < s.len() && s[i].access == access && key_live_at(s[i], now)
}

/// The record `k` with its expiry set to `now`.
pub open spec fn with_expiry(k: AccessKeyView, now: i64) -> AccessKeyView {
    AccessKeyView { expired_at: Some(now), ..k }
}

/// The store of API key records. Rows are only ever appended (`create`)
/// or have their expiry set (`expire`); the access identifiers are unique.
pub struct KeyStore {
    keys: Vec<AccessKey>,
}

impl View for KeyStore {
    type V = Seq<AccessKeyView>;

    closed spec fn view(&self) -> Seq<AccessKeyView> {
        self.keys@.map_values(|k: AccessKey| k@)
    }
}

impl KeyStore {
    /// Well-formed: access identifiers are pairwise distinct and row `i`
    /// carries id `i` (ids are assigned in insertion order, never reused).
    pub open spec fn wf(&self) -> bool {
        &&& forall|i: int, j: int|
            0 <= i < j < self@.len() ==> self@[i].access != self@[j].access
        &&& forall|i: int| 0 <= i < self@.len() ==> #[trigger] self@[i].id == i
    }

    pub fn new() -> (st: KeyStore)
        ensures
            st.wf(),
            st@.len() == 0,
    {
        let st = KeyStore { keys: Vec::new() };
        proof {
            assert(st@ =~= Seq::<AccessKeyView>::empty());
        }
        st
    }

    /// Index of the row whose access identifier equals `access`, if any.
    fn find_index(&self, access: &str) -> (r: Option<usize>)
        ensures
            r matches Some(i) ==> i < self@.len() && self@[i as int].access == access@,
            r is None ==> !key_exists(self@, access@),
    {
        let needle = access.to_owned();
        let n = self.keys.len();
        let mut i: usize = 0;
        while i < n
            invariant
                n == self.keys.len(),
                i <= n,
                self@.len() == n,
                forall|j: int| 0 <= j < i ==> self@[j].access != needle@,
                needle@ == access@,
            decreases n - i,
        {
            let k = &self.keys[i];
            if k.access == needle {
                assert(self@[i as int].access == access@);
                return Some(i);
            }
            i += 1;
        }
        None
    }

    /// Whether a key with this access identifier is already stored.
    pub fn contains_access(&self, access: &str) -> (r: bool)
        ensures
            r == key_exists(self@, access@),
    {
        match self.find_index(access) {
            Some(i) => {
                proof {
                    assert(key_exists(self@, access@)) by {
                        assert(0 <= i < self@.len() && self@[i as int].access == access@);
                    }
                }
                true
            },
            None => false,
        }
    }

    /// Persists a new key row. Fails (leaving the store unchanged) when the
    /// access identifier is already taken, as the store's uniqueness
    /// constraint on `access` would; succeeds on any fresh identifier.
    pub fn insert_key(&mut self, access: String, secret: String, description: Option<String>) -> (r:
        Result<u32, Error>)
        requires
            old(self).wf(),
            old(self)@.len() < u32::MAX,
        ensures
            final(self).wf(),
            !key_exists(old(self)@, access@) ==> {
                &&& r matches Ok(id) && id == old(self)@.len()
                &&& final(self)@ == old(self)@.push(
                    AccessKeyView {
                        id: old(self)@.len() as u32,
                        access: access@,
                        secret: secret@,
                        description: opt_str_view(description),
                        expired_at: None,
                    },
                )
            },
            key_exists(old(self)@, access@) ==> r == Err::<u32, Error>(Error::Internal)
                && final(self)@ == old(self)@,
    {
        if self.contains_access(access.as_str()) {
            return Err(Error::Internal);
        }
        let id = self.keys.len() as u32;
        let k = AccessKey { id, access, secret, description, expired_at: None };
        let ghost prev = self@;
        let ghost kv = k@;
        self.keys.push(k);
        proof {
            assert(self@ =~= prev.push(kv));
            assert forall|i: int, j: int| 0 <= i < j < self@.len() implies self@[i].access
                != self@[j].access by {
                if j < prev.len() {
                } else {
                    assert(self@[j] == kv);
                    assert(!key_exists(prev, kv.access));
                    assert(0 <= i < prev.len() && prev[i] == self@[i]);
                }
            }
        }
        Ok(id)
    }

    /// The stored secret for a live key, for the credential exchange. An
    /// unknown access identifier and an expired key are both rejected as
    /// `Unauthorized`, indistinguishably.
    pub fn find_secret_by_access(&self, access: &str, now: i64) -> (r: Result<String, Error>)
        requires
            self.wf(),
        ensures
            live_key_exists(self@, access@, now) ==> (r matches Ok(sec) && sec@ == self@[key_index(
                self@,
                access@,
            )].secret),
            !live_key_exists(self@, access@, now) ==> r == Err::<String, Error>(
                Error::Unauthorized,
            ),
    {
        match self.find_index(access) {
            Some(i) => {
                let k = &self.keys[i];
                let live = match k.expired_at {
                    None => true,
                    Some(t) => t > now,
                };
                if live {
                    proof {
                        let ki = key_index(self@, access@);
                        assert(live_key_exists(self@, access@, now)) by {
                            assert(self@[i as int].access == access@ && key_live_at(
                                self@[i as int],
                                now,
                            ));
                        }
                        // access identifiers are unique, so the chosen index is ours
                        assert(0 <= ki < self@.len() && self@[ki].access == access@);
                        assert(ki == i);
                    }
                    Ok(k.secret.clone())
                } else {
                    proof {
                        assert forall|j: int|
                            0 <= j < self@.len() && self@[j].access == access@ implies !key_live_at(
                            self@[j],
                            now,
                        ) by {
                            assert(j == i);
                        }
                    }
                    Err(Error::Unauthorized)
                }
            },
            None => Err(Error::Unauthorized),
        }
    }

    /// Whether a key with this access identifier is stored and still live
    /// at `now`: token verification consults this, so that expiring a key
    /// also revokes its outstanding tokens.
    pub fn is_live(&self, access: &str, now: i64) -> (r: bool)
        requires
            self.wf(),
        ensures
            r == live_key_exists(self@, access@, now),
    {
        match self.find_index(access) {
            Some(i) => {
                let k = &self.keys[i];
                let live = match k.expired_at {
                    None => true,
                    Some(t) => t > now,
                };
                proof {
                    if live {
                        assert(live_key_exists(self@, access@, now)) by {
                            assert(self@[i as int].access == access@ && key_live_at(
                                self@[i as int],
                                now,
                            ));
                        }
                    } else {
                        assert forall|j: int|
                            0 <= j < self@.len() && self@[j].access
                                == access@ implies !key_live_at(self@[j], now) by {
                            assert(j == i);
                        }
                    }
                }
                live
            },
            None => false,
        }
    }

    /// Everything about the stored keys except their secrets, in storage
    /// order: the listing's type carries no secret at all.
    pub fn read_all(&self) -> (r: Vec<KeyListing>)
        ensures
            r@.len() == self@.len(),
            forall|i: int|
                0 <= i < r@.len() ==> {
                    &&& (#[trigger] r@[i]).id == self@[i].id
                    &&& r@[i].access@ == self@[i].access
                    &&& opt_str_view(r@[i].description) == self@[i].description
                    &&& r@[i].expired_at == self@[i].expired_at
                },
    {
        let n = self.keys.len();
        let mut out: Vec<KeyListing> = Vec::new();
        let mut i: usize = 0;
        while i < n
            invariant
                n == self.keys.len(),
                i <= n,
                self@.len() == n,
                out@.len() == i,
                forall|j: int|
                    0 <= j < i ==> {
                        &&& (#[trigger] out@[j]).id == self@[j].id
                        &&& out@[j].access@ == self@[j].access
                        &&& opt_str_view(out@[j].description) == self@[j].description
                        &&& out@[j].expired_at == self@[j].expired_at
                    },
            decreases n - i,
        {
            let k = &self.keys[i];
            let description = match &k.description {
                Some(d) => Some(d.clone()),
                None => None,
            };
            out.push(
                KeyListing {
                    id: k.id,
                    access: k.access.clone(),
                    description,
                    expired_at: k.expired_at,
                },
            );
            i += 1;
        }
        out
    }

    /// Draws a credential pair whose access identifier is not yet stored,
    /// redrawing on a collision; gives up as an internal failure only when
    /// every draw collided.
    fn fresh_pair(&self) -> (r: Result<(String, String), Error>)
        ensures
            r matches Ok(p) ==> key_generated(p.0@) && key_generated(p.1@) && !key_exists(
                self@,
                p.0@,
            ),
            r is Err ==> r == Err::<(String, String), Error>(Error::Internal),
    {
        let mut tries: usize = 0;
        while tries < CREATE_RETRIES
            invariant
                tries <= CREATE_RETRIES,
            decreases CREATE_RETRIES - tries,
        {
            let access = generate_key();
            let secret = generate_key();
            if !self.contains_access(access.as_str()) {
                return Ok((access, secret));
            }
            tries += 1;
        }
        Err(Error::Internal)
    }

    /// Creates a key: draws two independent fresh credentials, persists the
    /// new row, and returns the pair — the only time the secret is ever
    /// exposed. A drawn identifier that collides with a stored one is
    /// redrawn rather than failing the request.
    pub fn create(&mut self, description: Option<String>) -> (r: Result<(String, String), Error>)
        requires
            old(self).wf(),
            old(self)@.len() < u32::MAX,
        ensures
            final(self).wf(),
            r matches Ok(ks) ==> {
                &&& key_generated(ks.0@)
                &&& key_generated(ks.1@)
                &&& !key_exists(old(self)@, ks.0@)
                &&& final(self)@ == old(self)@.push(
                    AccessKeyView {
                        id: old(self)@.len() as u32,
                        access: ks.0@,
                        secret: ks.1@,
                        description: opt_str_view(description),
                        expired_at: None,
                    },
                )
            },
            r is Err ==> r == Err::<(String, String), Error>(Error::Internal) && final(self)@
                == old(self)@,
    {
        let (access, secret) = match self.fresh_pair() {
            Ok(p) => p,
            Err(e) => {
                return Err(e);
            },
        };
        let ret_access = access.clone();
        let ret_secret = secret.clone();
        match self.insert_key(access, secret, description) {
            Ok(_) => Ok((ret_access, ret_secret)),
            Err(_) => {
                proof {
                    assert(false);
                }
                Err(Error::Internal)
            },
        }
    }

    /// Sets the key's logical expiry to the current time, making it
    /// immediately unusable for issuance and verification; unknown ids
    /// are reported.
    pub fn expire(&mut self, id: u32) -> (r: Result<(), Error>)
        requires
            old(self).wf(),
        ensures
            final(self).wf(),
            id < old(self)@.len() ==> (r matches Ok(u) && exists|now: i64|
                final(self)@ == old(self)@.update(
                    id as int,
                    with_expiry(old(self)@[id as int], now),
                )),
            id >= old(self)@.len() ==> r == Err::<(), Error>(Error::NotFound) && final(self)@
                == old(self)@,
    {
        let now = crate::clock::now_seconds();
        let r = self.expire_at(id, now);
        r
    }

    /// Sets the key's logical expiry to `now`, making it immediately
    /// unusable for issuance and verification; unknown ids are reported.
    pub fn expire_at(&mut self, id: u32, now: i64) -> (r: Result<(), Error>)
        requires
            old(self).wf(),
        ensures
            final(self).wf(),
            id < old(self)@.len() ==> (r matches Ok(u) && final(self)@ == old(self)@.update(
                id as int,
                with_expiry(old(self)@[id as int], now),
            )),
            id >= old(self)@.len() ==> r == Err::<(), Error>(Error::NotFound) && final(self)@
                == old(self)@,
    {
        let n = self.keys.len();
        if (id as usize) < n {
            let i = id as usize;
            let ghost prev = self@;
            let access = self.keys[i].access.clone();
            let secret = self.keys[i].secret.clone();
            let description = match &self.keys[i].description {
                Some(d) => Some(d.clone()),
                None => None,
            };
            let updated = AccessKey { id, access, secret, description, expired_at: Some(now) };
            let ghost uv = updated@;
            self.keys.set(i, updated);
            proof {
                assert(uv == with_expiry(prev[i as int], now));
                assert(self@ =~= prev.update(i as int, uv));
            }
            Ok(())
        } else {
            Err(Error::NotFound)
        }
    }
}

/// Law: in a well-formed store — as `new` creates it and `create`,
/// `insert_key` and `expire_at` preserve it — access identifiers are
/// pairwise distinct, across however many `create` calls the store grew.
pub proof fn lemma_access_identifiers_distinct(st: &KeyStore, i: int, j: int)
    requires
        st.wf(),
        0 <= i < st@.len(),
        0 <= j < st@.len(),
        i != j,
    ensures
        st@[i].access != st@[j].access,
{
    if i < j {
        assert(st@[i].access != st@[j].access);
    } else {
        assert(st@[j].access != st@[i].access);
    }
}

} // verus!
