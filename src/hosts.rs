//! Host profiles: the stored form, the decrypted form handed to sessions, and
//! the rules that turn one into the other.
use vstd::prelude::*;
use vstd::string::*;
use vstd::utf8::encode_utf8;
use crate::crypto::{decrypt, encrypt, opened, seals, EncryptedData, AES_GCM_MAX_PLAINTEXT, KEY_LEN};
use crate::text::text_eq;

verus! {

/// A host profile with its secrets in clear text.
pub struct DecryptedHostConfig {
    pub id: String,
    pub name: String,
    pub host: String,
    pub port: u16,
    pub username: String,
    pub auth_type: String,
    pub password: Option<String>,
    pub private_key: Option<String>,
    pub passphrase: Option<String>,
    pub group_name: String,
    pub tags: Vec<String>,
    pub created_at: String,
    pub last_connected: Option<String>,
    pub identity_file: Option<String>,
    pub description: Option<String>,
}

/// The characters of an optional string.
pub open spec fn opt_text(o: Option<String>) -> Option<Seq<char>> {
    match o {
        Some(s) => Some(s@),
        None => None,
    }
}

} // verus!

verus! {

/// A secret as the host store holds it.
pub enum StoredSecret {
    /// Sealed by the vault.
    Sealed(EncryptedData),
    /// A clear-text string left by an older version.
    Plain(String),
    /// Anything else.
    Unreadable,
}

/// A host profile as the host store holds it: secrets sealed, every field
/// but the address and user optional.
pub struct HostConfig {
    pub id: Option<String>,
    pub name: String,
    pub host: String,
    pub port: Option<u16>,
    pub username: String,
    pub auth_type: Option<String>,
    pub password: Option<StoredSecret>,
    pub private_key: Option<StoredSecret>,
    pub passphrase: Option<StoredSecret>,
    pub group_name: Option<String>,
    pub tags: Option<Vec<String>>,
    pub created_at: Option<String>,
    pub last_connected: Option<String>,
    pub identity_file: Option<String>,
    pub description: Option<String>,
}

pub fn default_port() -> (r: u16)
    ensures
        r == 22,
{
    22
}

/// Relies on uuid::Uuid::new_v4, in its hyphenated text form: a fresh random
/// identifier.
#[verifier::external_body]
fn new_id() -> (r: String) {
    uuid::Uuid::new_v4().to_string()
}

/// Relies on chrono::Utc::now, written by DateTime::to_rfc3339: the time now.
#[verifier::external_body]
fn now_timestamp() -> (r: String) {
    chrono::Utc::now().to_rfc3339()
}

/// The clear text of a stored secret: a sealed one as the vault opens it, a
/// legacy plain one as it is.
pub open spec fn secret_text(s: Option<StoredSecret>, key: Seq<u8>) -> Option<Seq<char>> {
    match s {
        Some(StoredSecret::Sealed(d)) => opened(key, d),
        Some(StoredSecret::Plain(t)) => Some(t@),
        _ => None,
    }
}

pub fn maybe_decrypt(key: &[u8], stored: &Option<StoredSecret>) -> (r: Option<String>)
    requires
        key@.len() == KEY_LEN,
    ensures
        opt_text(r) == secret_text(*stored, key@),
{
    match stored {
        Some(StoredSecret::Sealed(d)) => decrypt(key, d),
        Some(StoredSecret::Plain(t)) => Some(t.clone()),
        _ => None,
    }
}

/// `s` is how `secret` is stored: nothing for no secret or an empty one,
/// otherwise the secret sealed under `key`.
pub open spec fn stores_secret(s: Option<EncryptedData>, secret: Option<String>, key: Seq<u8>) -> bool {
    match secret {
        None => s is None,
        Some(t) => if t@.len() == 0 {
            s is None
        } else {
            &&& (s is Some <==> encode_utf8(t@).len() <= AES_GCM_MAX_PLAINTEXT)
            &&& (s matches Some(d) ==> seals(key, t@, d))
        },
    }
}

pub fn maybe_encrypt(key: &[u8], secret: &Option<String>) -> (r: Option<EncryptedData>)
    requires
        key@.len() == KEY_LEN,
    ensures
        stores_secret(r, *secret, key@),
{
    match secret {
        Some(t) => encrypt(key, t.as_str()),
        None => None,
    }
}

pub open spec fn sealed_secret(s: Option<EncryptedData>) -> Option<StoredSecret> {
    match s {
        Some(d) => Some(StoredSecret::Sealed(d)),
        None => None,
    }
}

fn seal_option(s: Option<EncryptedData>) -> (r: Option<StoredSecret>)
    ensures
        r == sealed_secret(s),
{
    match s {
        Some(d) => Some(StoredSecret::Sealed(d)),
        None => None,
    }
}

/// `r` is the stored profile `h` with its defaults filled in and its secrets
/// opened under `key`.
pub open spec fn decrypted_from(r: DecryptedHostConfig, h: HostConfig, key: Seq<u8>) -> bool {
    &&& (h.id matches Some(i) ==> r.id == i)
    &&& r.name == h.name
    &&& r.host == h.host
    &&& r.port == (match h.port { Some(p) => p, None => 22 })
    &&& r.username == h.username
    &&& r.auth_type@ == (match h.auth_type { Some(a) => a@, None => "password"@ })
    &&& opt_text(r.password) == secret_text(h.password, key)
    &&& opt_text(r.private_key) == secret_text(h.private_key, key)
    &&& opt_text(r.passphrase) == secret_text(h.passphrase, key)
    &&& r.group_name@ == (match h.group_name { Some(g) => g@, None => "默认分组"@ })
    &&& r.tags@ == (match h.tags { Some(t) => t@, None => Seq::<String>::empty() })
    &&& (h.created_at matches Some(c) ==> r.created_at == c)
    &&& r.last_connected == h.last_connected
    &&& r.identity_file == h.identity_file
    &&& r.description == h.description
}

/// Opens one stored profile. A profile without an identifier gets a fresh
/// one, and one without a creation time gets the time now.
pub fn decrypt_host(key: &[u8], h: HostConfig) -> (r: DecryptedHostConfig)
    requires
        key@.len() == KEY_LEN,
    ensures
        decrypted_from(r, h, key@),
{
    let password = maybe_decrypt(key, &h.password);
    let private_key = maybe_decrypt(key, &h.private_key);
    let passphrase = maybe_decrypt(key, &h.passphrase);
    let HostConfig {
        id,
        name,
        host,
        port,
        username,
        auth_type,
        password: _,
        private_key: _,
        passphrase: _,
        group_name,
        tags,
        created_at,
        last_connected,
        identity_file,
        description,
    } = h;
    DecryptedHostConfig {
        id: match id {
            Some(i) => i,
            None => new_id(),
        },
        name,
        host,
        port: match port {
            Some(p) => p,
            None => default_port(),
        },
        username,
        auth_type: match auth_type {
            Some(a) => a,
            None => String::from_str("password"),
        },
        password,
        private_key,
        passphrase,
        group_name: match group_name {
            Some(g) => g,
            None => String::from_str("默认分组"),
        },
        tags: match tags {
            Some(t) => t,
            None => Vec::new(),
        },
        created_at: match created_at {
            Some(c) => c,
            None => now_timestamp(),
        },
        last_connected,
        identity_file,
        description,
    }
}

/// Opens every stored profile, in order.
pub fn get_hosts(key: &[u8], stored: Vec<HostConfig>) -> (r: Vec<DecryptedHostConfig>)
    requires
        key@.len() == KEY_LEN,
    ensures
        r@.len() == stored@.len(),
        forall|i: int| 0 <= i < stored@.len() ==> decrypted_from(#[trigger] r@[i], stored@[i], key@),
{
    let mut rest = stored;
    let mut out: Vec<DecryptedHostConfig> = Vec::new();
    let ghost all = rest@;
    while rest.len() > 0
        invariant
            key@.len() == KEY_LEN,
            out@.len() + rest@.len() == all.len(),
            rest@ == all.subrange(out@.len() as int, all.len() as int),
            forall|i: int| 0 <= i < out@.len() ==> decrypted_from(#[trigger] out@[i], all[i], key@),
        decreases rest@.len(),
    {
        let h = rest.remove(0);
        assert(h == all[out@.len() as int]);
        out.push(decrypt_host(key, h));
        assert(rest@ =~= all.subrange(out@.len() as int, all.len() as int));
    }
    out
}

/// `s` is how `host` is stored: every optional field filled, secrets sealed
/// under `key`.
pub open spec fn stored_form(s: HostConfig, host: DecryptedHostConfig, key: Seq<u8>) -> bool {
    &&& s.id == Some(host.id)
    &&& s.name == host.name
    &&& s.host == host.host
    &&& s.port == Some(host.port)
    &&& s.username == host.username
    &&& s.auth_type == Some(host.auth_type)
    &&& exists|p: Option<EncryptedData>| s.password == sealed_secret(p) && #[trigger] stores_secret(p, host.password, key)
    &&& exists|p: Option<EncryptedData>| s.private_key == sealed_secret(p) && #[trigger] stores_secret(p, host.private_key, key)
    &&& exists|p: Option<EncryptedData>| s.passphrase == sealed_secret(p) && #[trigger] stores_secret(p, host.passphrase, key)
    &&& s.group_name == Some(host.group_name)
    &&& s.tags == Some(host.tags)
    &&& s.created_at == Some(host.created_at)
    &&& s.last_connected == host.last_connected
    &&& s.identity_file == host.identity_file
    &&& s.description == host.description
}

/// The stored profile at `i` carries the identifier `id`.
pub open spec fn has_id(s: Seq<HostConfig>, i: int, id: Seq<char>) -> bool {
    s[i].id matches Some(x) && x@ == id
}

/// The first position from `start` on whose profile carries `id`, or -1.
pub open spec fn first_with_id(s: Seq<HostConfig>, id: Seq<char>, start: int) -> int
    decreases s.len() - start,
{
    if start < 0 || start >= s.len() {
        -1
    } else if has_id(s, start, id) {
        start
    } else {
        first_with_id(s, id, start + 1)
    }
}

fn position_of(hosts: &Vec<HostConfig>, id: &str) -> (r: Option<usize>)
    ensures
        match r {
            Some(i) => i < hosts@.len() && first_with_id(hosts@, id@, 0) == i as int,
            None => first_with_id(hosts@, id@, 0) == -1,
        },
{
    let mut i: usize = 0;
    while i < hosts.len()
        invariant
            i <= hosts@.len(),
            first_with_id(hosts@, id@, 0) == first_with_id(hosts@, id@, i as int),
        decreases hosts@.len() - i,
    {
        let found = match &hosts[i].id {
            Some(x) => text_eq(x.as_str(), id),
            None => false,
        };
        if found {
            return Some(i);
        }
        i = i + 1;
    }
    None
}

/// Stores `host`, sealing its secrets: it replaces the first stored profile
/// with the same identifier, or is added at the end. Returns the identifier.
pub fn save_host(key: &[u8], hosts: &mut Vec<HostConfig>, host: DecryptedHostConfig) -> (r: Result<String, String>)
    requires
        key@.len() == KEY_LEN,
    ensures
        r matches Ok(id) && id == host.id,
        ({
            let at = first_with_id(old(hosts)@, host.id@, 0);
            if at >= 0 {
                &&& final(hosts)@.len() == old(hosts)@.len()
                &&& forall|j: int| 0 <= j < old(hosts)@.len() && j != at ==> final(hosts)@[j] == old(hosts)@[j]
                &&& stored_form(final(hosts)@[at], host, key@)
            } else {
                &&& final(hosts)@.len() == old(hosts)@.len() + 1
                &&& forall|j: int| 0 <= j < old(hosts)@.len() ==> final(hosts)@[j] == old(hosts)@[j]
                &&& stored_form(final(hosts)@[old(hosts)@.len() as int], host, key@)
            }
        }),
{
    let password = maybe_encrypt(key, &host.password);
    let private_key = maybe_encrypt(key, &host.private_key);
    let passphrase = maybe_encrypt(key, &host.passphrase);
    let ghost (p1, p2, p3) = (password, private_key, passphrase);
    let id = host.id.clone();
    let pos = position_of(hosts, id.as_str());
    let ghost h = host;
    let DecryptedHostConfig {
        id: host_id,
        name,
        host: address,
        port,
        username,
        auth_type,
        password: _,
        private_key: _,
        passphrase: _,
        group_name,
        tags,
        created_at,
        last_connected,
        identity_file,
        description,
    } = host;
    let stored = HostConfig {
        id: Some(host_id),
        name,
        host: address,
        port: Some(port),
        username,
        auth_type: Some(auth_type),
        password: seal_option(password),
        private_key: seal_option(private_key),
        passphrase: seal_option(passphrase),
        group_name: Some(group_name),
        tags: Some(tags),
        created_at: Some(created_at),
        last_connected,
        identity_file,
        description,
    };
    assert(stores_secret(p1, h.password, key@));
    assert(stores_secret(p2, h.private_key, key@));
    assert(stores_secret(p3, h.passphrase, key@));
    assert(stored_form(stored, h, key@));
    match pos {
        Some(i) => {
            hosts.set(i, stored);
        },
        None => {
            hosts.push(stored);
        },
    }
    Ok(id)
}

/// The profiles that do not carry `id`.
pub open spec fn keeps(h: HostConfig, id: Seq<char>) -> bool {
    !(h.id matches Some(x) && x@ == id)
}

/// Removes every stored profile with identifier `id`, keeping the order of
/// the rest. An unknown identifier changes nothing and is no error.
pub fn delete_host(hosts: &mut Vec<HostConfig>, id: &str) -> (r: Result<bool, String>)
    ensures
        r == Ok::<bool, String>(true),
        final(hosts)@ == old(hosts)@.filter(|h: HostConfig| keeps(h, id@)),
{
    let ghost all = hosts@;
    let ghost pred = |h: HostConfig| keeps(h, id@);
    let mut kept: Vec<HostConfig> = Vec::new();
    let ghost done: int = 0;
    while hosts.len() > 0
        invariant
            all == old(hosts)@,
            pred == (|h: HostConfig| keeps(h, id@)),
            hosts@ == all.subrange(done, all.len() as int),
            0 <= done <= all.len(),
            kept@ == all.subrange(0, done).filter(pred),
        decreases hosts@.len(),
    {
        let h = hosts.remove(0);
        assert(h == all[done]);
        let drop = match &h.id {
            Some(x) => text_eq(x.as_str(), id),
            None => false,
        };
        proof {
            reveal(Seq::filter);
            let s = all.subrange(0, done + 1);
            assert(s.drop_last() =~= all.subrange(0, done));
            assert(s.last() == h);
            assert(s.filter(pred) == if pred(h) {
                all.subrange(0, done).filter(pred).push(h)
            } else {
                all.subrange(0, done).filter(pred)
            });
            assert(pred(h) == keeps(h, id@));
            assert(keeps(h, id@) == !drop);
        }
        if !drop {
            kept.push(h);
        }
        proof {
            done = done + 1;
        }
        assert(hosts@ =~= all.subrange(done, all.len() as int));
    }
    assert(all.subrange(0, all.len() as int) =~= all);
    *hosts = kept;
    Ok(true)
}

/// The first profile whose identifier is `id`.
pub fn get_host(hosts: Vec<DecryptedHostConfig>, id: &str) -> (r: Option<DecryptedHostConfig>)
    ensures
        match r {
            Some(h) => exists|i: int|
                0 <= i < hosts@.len() && hosts@[i] == h && h.id@ == id@
                    && forall|j: int| 0 <= j < i ==> (#[trigger] hosts@[j]).id@ != id@,
            None => forall|j: int| 0 <= j < hosts@.len() ==> (#[trigger] hosts@[j]).id@ != id@,
        },
{
    let mut i: usize = 0;
    while i < hosts.len()
        invariant
            i <= hosts@.len(),
            forall|j: int| 0 <= j < i ==> (#[trigger] hosts@[j]).id@ != id@,
        decreases hosts@.len() - i,
    {
        if text_eq(hosts[i].id.as_str(), id) {
            let ghost all = hosts@;
            let mut hosts = hosts;
            let h = hosts.remove(i);
            assert(h == all[i as int]);
            return Some(h);
        }
        i = i + 1;
    }
    None
}

} // verus!
