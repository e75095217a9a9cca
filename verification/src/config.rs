//! The session: the stored key, what the last authorization granted, and the
//! buckets known by name.

use vstd::prelude::*;
use vstd::string::StringExecFns;
use vstd::utf8::encode_utf8;
use crate::api::{AuthReply, AuthResponse, Bucket};
use crate::error::Error;

verus! {

/// The standard base64 encoding, with padding, of a byte string.
pub uninterp spec fn base64_standard(input: Seq<u8>) -> Seq<char>;

/// `Engine::encode` on `BASE64_STANDARD`: the input in the standard alphabet
/// with `=` padding. It fails only where four thirds of the input's length
/// overflow `usize`, which no slice in memory reaches.
#[verifier::external_body]
fn base64_encode(input: &[u8]) -> (encoded: String)
    ensures
        encoded@ == base64_standard(input@),
{
    base64::Engine::encode(&base64::prelude::BASE64_STANDARD, input)
}

/// The value of the authorization header that presents a key: the word
/// `Basic`, directly followed by the base64 form of `key_id:key`.
pub open spec fn basic_auth(key_id: Seq<char>, key: Seq<char>) -> Seq<char> {
    "Basic"@ + base64_standard(encode_utf8(key_id + ":"@ + key))
}

/// The authorization header for the given application key.
pub fn get_auth(key_id: &str, key: &str) -> (header: String)
    ensures
        header@ == basic_auth(key_id@, key@),
{
    let mut pair = key_id.to_owned();
    pair.append(":");
    pair.append(key);
    let encoded = base64_encode(pair.as_str().as_bytes());
    let mut header = "Basic".to_owned();
    header.append(encoded.as_str());
    header
}

/// Whether the session can make calls as it is.
#[derive(Clone, Copy, Debug, PartialEq, Eq, Structural)]
pub enum AuthStep {
    /// A key, its identifier and a token are stored.
    Ready,
    /// The token, the key or its identifier is missing: ask the user for the
    /// key and its identifier and authorize with them.
    NeedCredentials,
}

/// The session: the application key, what the last authorization granted,
/// and the buckets known by name.
#[derive(Debug)]
pub struct Config {
    pub key_id: String,
    pub key: String,
    pub api_url: String,
    pub download_url: String,
    pub auth_token: String,
    pub account_id: String,
    /// Bucket names with their identifiers; no name occurs twice.
    pub buckets: Vec<(String, String)>,
    pub recommended_part_size: u64,
}

impl Default for Config {
    fn default() -> (cfg: Config)
        ensures
            cfg.key_id@.len() == 0,
            cfg.key@.len() == 0,
            cfg.api_url@.len() == 0,
            cfg.download_url@.len() == 0,
            cfg.auth_token@.len() == 0,
            cfg.account_id@.len() == 0,
            cfg.buckets@.len() == 0,
            cfg.recommended_part_size == 0,
            cfg.wf(),
    {
        Config {
            key_id: String::new(),
            key: String::new(),
            api_url: String::new(),
            download_url: String::new(),
            auth_token: String::new(),
            account_id: String::new(),
            buckets: Vec::new(),
            recommended_part_size: 0,
        }
    }
}

impl Config {
    /// The name of the bucket at the given position of the list.
    pub open spec fn name_at(&self, i: int) -> Seq<char> {
        self.buckets@[i].0@
    }

    /// The given position of the list holds the bucket with the given name.
    pub open spec fn holds(&self, name: Seq<char>, i: int) -> bool {
        0 <= i < self.buckets@.len() && self.name_at(i) == name
    }

    /// No bucket name occurs twice.
    pub open spec fn wf(&self) -> bool {
        forall|i: int, j: int|
            0 <= i < self.buckets@.len() && 0 <= j < self.buckets@.len() && #[trigger] self.name_at(
                i,
            ) == #[trigger] self.name_at(j) ==> i == j
    }

    /// Whether a session is well-formed depends on its bucket list alone.
    proof fn lemma_same_buckets(&self, other: &Config)
        requires
            self.wf(),
            self.buckets == other.buckets,
        ensures
            other.wf(),
    {
        assert forall|i: int, j: int|
            0 <= i < other.buckets@.len() && 0 <= j < other.buckets@.len()
                && #[trigger] other.name_at(i) == #[trigger] other.name_at(j) implies i == j by {
            assert(self.name_at(i) == self.name_at(j));
        }
    }

    /// The known buckets: from each name to its identifier.
    pub open spec fn bucket_ids(&self) -> Map<Seq<char>, Seq<char>> {
        Map::new(
            |name: Seq<char>| exists|i: int| self.holds(name, i),
            |name: Seq<char>| self.buckets@[choose|i: int| self.holds(name, i)].1@,
        )
    }

    /// The session can make calls: it holds a key, the key's identifier and a
    /// token.
    pub open spec fn is_authorized(&self) -> bool {
        self.auth_token@.len() > 0 && self.key_id@.len() > 0 && self.key@.len() > 0
    }

    /// The session after an authorization that granted `granted`: the URLs,
    /// the token, the account and the part size are replaced; the key and the
    /// buckets stay.
    pub open spec fn refreshed_by(&self, old: &Config, granted: &AuthResponse) -> bool {
        &&& self.api_url@ == granted.api_info.storage_api.api_url@
        &&& self.download_url@ == granted.api_info.storage_api.download_url@
        &&& self.auth_token@ == granted.authorization_token@
        &&& self.account_id@ == granted.account_id@
        &&& self.recommended_part_size == granted.api_info.storage_api.recommended_part_size
        &&& self.buckets == old.buckets
    }

    /// Says whether credentials have to be obtained, and the session
    /// authorized with them, before it can make calls: that is so whenever the
    /// token, the key's identifier or the key is missing.
    pub fn confirm_auth(&self) -> (step: AuthStep)
        ensures
            step == AuthStep::Ready <==> self.is_authorized(),
            step == AuthStep::NeedCredentials <==> !self.is_authorized(),
    {
        if self.auth_token.as_str().is_empty() || self.key_id.as_str().is_empty()
            || self.key.as_str().is_empty() {
            AuthStep::NeedCredentials
        } else {
            AuthStep::Ready
        }
    }

    /// The address of the named call under the session's API URL, or nothing
    /// where credentials have to be obtained first.
    pub fn api_url(&self, api_name: &str) -> (url: Option<String>)
        ensures
            url is Some <==> self.is_authorized(),
            url matches Some(u) ==> u@ == self.api_url@ + "/b2api/v3/"@ + api_name@,
    {
        match self.confirm_auth() {
            AuthStep::NeedCredentials => None,
            AuthStep::Ready => {
                let mut url = self.api_url.clone();
                url.append("/b2api/v3/");
                url.append(api_name);
                Some(url)
            },
        }
    }

    /// The address from which a file of a bucket is downloaded.
    pub fn file_url(&self, bucket: &str, file: &str) -> (url: String)
        ensures
            url@ == self.download_url@ + "/file/"@ + bucket@ + "/"@ + file@,
    {
        let mut url = self.download_url.clone();
        url.append("/file/");
        url.append(bucket);
        url.append("/");
        url.append(file);
        url
    }

    /// Takes in the answer to an authorization with the given key. Granted:
    /// the key is stored and the session refreshed. Refused: nothing changes,
    /// and the error carries the service's code and message.
    pub fn authorise(&mut self, key_id: &str, key: &str, reply: AuthReply) -> (r: Result<(), Error>)
        requires
            old(self).wf(),
        ensures
            final(self).wf(),
            match reply {
                AuthReply::Granted(granted) => {
                    &&& r is Ok
                    &&& final(self).key_id@ == key_id@
                    &&& final(self).key@ == key@
                    &&& final(self).refreshed_by(old(self), &granted)
                },
                AuthReply::Refused(refusal) => {
                    &&& r == Err::<(), Error>(
                        Error::Auth { code: refusal.code, message: refusal.message },
                    )
                    &&& *final(self) == *old(self)
                },
            },
    {
        match reply {
            AuthReply::Refused(refusal) => Err(
                Error::Auth { code: refusal.code, message: refusal.message },
            ),
            AuthReply::Granted(granted) => {
                let ghost before = *self;
                self.key_id = key_id.to_owned();
                self.key = key.to_owned();
                self.api_url = granted.api_info.storage_api.api_url;
                self.download_url = granted.api_info.storage_api.download_url;
                self.auth_token = granted.authorization_token;
                self.account_id = granted.account_id;
                self.recommended_part_size = granted.api_info.storage_api.recommended_part_size;
                proof {
                    before.lemma_same_buckets(self);
                }
                Ok(())
            },
        }
    }

    /// Takes in the answer to an authorization with the stored key. Granted:
    /// the session is refreshed. Refused: nothing changes, and the error
    /// carries the service's code and message.
    pub fn reauth(&mut self, reply: AuthReply) -> (r: Result<(), Error>)
        requires
            old(self).wf(),
        ensures
            final(self).wf(),
            match reply {
                AuthReply::Granted(granted) => {
                    &&& r is Ok
                    &&& final(self).key_id == old(self).key_id
                    &&& final(self).key == old(self).key
                    &&& final(self).refreshed_by(old(self), &granted)
                },
                AuthReply::Refused(refusal) => {
                    &&& r == Err::<(), Error>(
                        Error::Auth { code: refusal.code, message: refusal.message },
                    )
                    &&& *final(self) == *old(self)
                },
            },
    {
        match reply {
            AuthReply::Refused(refusal) => Err(
                Error::Auth { code: refusal.code, message: refusal.message },
            ),
            AuthReply::Granted(granted) => {
                let ghost before = *self;
                self.api_url = granted.api_info.storage_api.api_url;
                self.download_url = granted.api_info.storage_api.download_url;
                self.auth_token = granted.authorization_token;
                self.account_id = granted.account_id;
                self.recommended_part_size = granted.api_info.storage_api.recommended_part_size;
                proof {
                    before.lemma_same_buckets(self);
                }
                Ok(())
            },
        }
    }
}

/// The bucket map after the pairs of name and identifier have been entered
/// one by one, each replacing what its name stood for before.
pub open spec fn entered(known: Map<Seq<char>, Seq<char>>, pairs: Seq<(String, String)>) -> Map<
    Seq<char>,
    Seq<char>,
>
    decreases pairs.len(),
{
    if pairs.len() == 0 {
        known
    } else {
        entered(known, pairs.drop_last()).insert(pairs.last().0@, pairs.last().1@)
    }
}

/// The bucket map after the listed buckets have been entered one by one, each
/// replacing what its name stood for before.
pub open spec fn merged(known: Map<Seq<char>, Seq<char>>, listed: Seq<Bucket>) -> Map<
    Seq<char>,
    Seq<char>,
>
    decreases listed.len(),
{
    if listed.len() == 0 {
        known
    } else {
        merged(known, listed.drop_last()).insert(
            listed.last().bucket_name@,
            listed.last().bucket_id@,
        )
    }
}

impl Config {
    /// The position of the bucket with the given name, if it is known.
    fn find_bucket(&self, name: &String) -> (found: Option<usize>)
        ensures
            match found {
                Some(i) => self.holds(name@, i as int),
                None => forall|i: int| !self.holds(name@, i),
            },
    {
        let mut i: usize = 0;
        while i < self.buckets.len()
            invariant
                i <= self.buckets@.len(),
                forall|j: int| 0 <= j < i ==> self.name_at(j) != name@,
            decreases self.buckets@.len() - i,
        {
            if self.buckets[i].0 == *name {
                return Some(i);
            }
            i = i + 1;
        }
        None
    }

    /// The identifier of the bucket with the given name, if the session knows
    /// the name. Where it does not, the bucket list is to be fetched and
    /// entered with `get_buckets` before asking again.
    pub fn get_bucket_id(&self, name: &str) -> (id: Option<String>)
        requires
            self.wf(),
        ensures
            id is Some <==> self.bucket_ids().contains_key(name@),
            id matches Some(found) ==> found@ == self.bucket_ids()[name@],
    {
        let wanted = name.to_owned();
        match self.find_bucket(&wanted) {
            Some(i) => {
                proof {
                    let k = choose|k: int| self.holds(name@, k);
                    assert(self.name_at(k) == self.name_at(i as int));
                }
                Some(self.buckets[i].1.clone())
            },
            None => None,
        }
    }

    /// Enters one bucket, replacing the identifier that its name stood for.
    pub fn insert_bucket(&mut self, name: String, id: String)
        requires
            old(self).wf(),
        ensures
            final(self).wf(),
            final(self).bucket_ids() == old(self).bucket_ids().insert(name@, id@),
            final(self).key_id == old(self).key_id,
            final(self).key == old(self).key,
            final(self).api_url == old(self).api_url,
            final(self).download_url == old(self).download_url,
            final(self).auth_token == old(self).auth_token,
            final(self).account_id == old(self).account_id,
            final(self).recommended_part_size == old(self).recommended_part_size,
    {
        let ghost before = *self;
        let ghost wanted = name@;
        let ghost value = id@;
        let found = self.find_bucket(&name);
        let ghost at: int = match found {
            Some(i) => i as int,
            None => self.buckets@.len() as int,
        };
        match found {
            Some(i) => {
                self.buckets.set(i, (name, id));
            },
            None => {
                self.buckets.push((name, id));
            },
        }
        proof {
            assert(self.holds(wanted, at));
            assert forall|j: int| 0 <= j < self.buckets@.len() && j != at implies self.name_at(j)
                == before.name_at(j) && self.buckets@[j] == before.buckets@[j] by {}
            assert forall|i: int, j: int|
                0 <= i < self.buckets@.len() && 0 <= j < self.buckets@.len() && #[trigger] self.name_at(
                    i,
                ) == #[trigger] self.name_at(j) implies i == j by {
                if i != at && j != at {
                    assert(before.name_at(i) == before.name_at(j));
                } else if i != at {
                    assert(before.holds(wanted, i));
                } else if j != at {
                    assert(before.holds(wanted, j));
                }
            }
            let target = before.bucket_ids().insert(wanted, value);
            assert forall|n: Seq<char>| self.bucket_ids().contains_key(n) <==> target.contains_key(
                n,
            ) by {
                if self.bucket_ids().contains_key(n) {
                    let k = choose|k: int| self.holds(n, k);
                    if k != at {
                        assert(before.holds(n, k));
                    }
                }
                if target.contains_key(n) && n != wanted {
                    let k = choose|k: int| before.holds(n, k);
                    assert(self.holds(n, k));
                }
            }
            assert forall|n: Seq<char>| self.bucket_ids().contains_key(n) implies self.bucket_ids()[n]
                == target[n] by {
                let k = choose|k: int| self.holds(n, k);
                if n == wanted {
                    assert(self.name_at(k) == self.name_at(at));
                } else {
                    assert(before.holds(n, k));
                    let b = choose|b: int| before.holds(n, b);
                    assert(before.name_at(b) == before.name_at(k));
                }
            }
            assert(self.bucket_ids() =~= target);
        }
    }

    /// A session with the given fields, its buckets entered pair by pair: a
    /// name that occurs more than once stands for the identifier of its last
    /// pair.
    pub fn new(
        key_id: String,
        key: String,
        api_url: String,
        download_url: String,
        auth_token: String,
        account_id: String,
        buckets: &Vec<(String, String)>,
        recommended_part_size: u64,
    ) -> (cfg: Config)
        ensures
            cfg.wf(),
            cfg.key_id == key_id,
            cfg.key == key,
            cfg.api_url == api_url,
            cfg.download_url == download_url,
            cfg.auth_token == auth_token,
            cfg.account_id == account_id,
            cfg.recommended_part_size == recommended_part_size,
            cfg.bucket_ids() == entered(Map::<Seq<char>, Seq<char>>::empty(), buckets@),
    {
        let mut cfg = Config {
            key_id,
            key,
            api_url,
            download_url,
            auth_token,
            account_id,
            buckets: Vec::new(),
            recommended_part_size,
        };
        let mut i: usize = 0;
        proof {
            assert(buckets@.take(0) =~= Seq::<(String, String)>::empty());
            assert(cfg.bucket_ids() =~= Map::<Seq<char>, Seq<char>>::empty());
        }
        while i < buckets.len()
            invariant
                i <= buckets@.len(),
                cfg.wf(),
                cfg.bucket_ids() == entered(
                    Map::<Seq<char>, Seq<char>>::empty(),
                    buckets@.take(i as int),
                ),
                cfg.key_id == key_id,
                cfg.key == key,
                cfg.api_url == api_url,
                cfg.download_url == download_url,
                cfg.auth_token == auth_token,
                cfg.account_id == account_id,
                cfg.recommended_part_size == recommended_part_size,
            decreases buckets@.len() - i,
        {
            proof {
                assert(buckets@.take(i + 1).drop_last() =~= buckets@.take(i as int));
                assert(buckets@.take(i + 1).last() == buckets@[i as int]);
            }
            cfg.insert_bucket(buckets[i].0.clone(), buckets[i].1.clone());
            i = i + 1;
        }
        assert(buckets@.take(buckets@.len() as int) =~= buckets@);
        cfg
    }

    /// Whether no bucket name occurs twice in the list, as every method that
    /// reads or enters buckets asks.
    pub fn has_unique_buckets(&self) -> (unique: bool)
        ensures
            unique == self.wf(),
    {
        let mut i: usize = 0;
        while i < self.buckets.len()
            invariant
                i <= self.buckets@.len(),
                forall|a: int, b: int|
                    0 <= a < i && 0 <= b < a && #[trigger] self.name_at(a)
                        == #[trigger] self.name_at(b) ==> false,
            decreases self.buckets@.len() - i,
        {
            let mut j: usize = 0;
            while j < i
                invariant
                    j <= i,
                    i < self.buckets@.len(),
                    forall|b: int| 0 <= b < j ==> self.name_at(i as int) != #[trigger] self.name_at(b),
                decreases i - j,
            {
                if self.buckets[i].0 == self.buckets[j].0 {
                    assert(self.name_at(i as int) == self.name_at(j as int));
                    return false;
                }
                j = j + 1;
            }
            i = i + 1;
        }
        assert forall|a: int, b: int|
            0 <= a < self.buckets@.len() && 0 <= b < self.buckets@.len() && #[trigger] self.name_at(
                a,
            ) == #[trigger] self.name_at(b) implies a == b by {
            if a < b {
                assert(self.name_at(b) == self.name_at(a));
            }
        }
        true
    }

    /// Enters the buckets that the service listed, in the order of the list.
    pub fn get_buckets(&mut self, listed: &Vec<Bucket>)
        requires
            old(self).wf(),
        ensures
            final(self).wf(),
            final(self).bucket_ids() == merged(old(self).bucket_ids(), listed@),
            final(self).key_id == old(self).key_id,
            final(self).key == old(self).key,
            final(self).api_url == old(self).api_url,
            final(self).download_url == old(self).download_url,
            final(self).auth_token == old(self).auth_token,
            final(self).account_id == old(self).account_id,
            final(self).recommended_part_size == old(self).recommended_part_size,
    {
        let ghost before = *self;
        let mut i: usize = 0;
        assert(listed@.take(0) =~= Seq::<Bucket>::empty());
        while i < listed.len()
            invariant
                i <= listed@.len(),
                self.wf(),
                self.bucket_ids() == merged(before.bucket_ids(), listed@.take(i as int)),
                self.key_id == before.key_id,
                self.key == before.key,
                self.api_url == before.api_url,
                self.download_url == before.download_url,
                self.auth_token == before.auth_token,
                self.account_id == before.account_id,
                self.recommended_part_size == before.recommended_part_size,
            decreases listed@.len() - i,
        {
            proof {
                assert(listed@.take(i + 1).drop_last() =~= listed@.take(i as int));
                assert(listed@.take(i + 1).last() == listed@[i as int]);
            }
            self.insert_bucket(listed[i].bucket_name.clone(), listed[i].bucket_id.clone());
            i = i + 1;
        }
        assert(listed@.take(listed@.len() as int) =~= listed@);
    }
}

} // verus!
