use vstd::prelude::*;
use crate::credentials::StoredCredentials;

verus! {

/// Most objects that one listing asks the store for.
pub const LIST_LIMIT: i32 = 1000;

/// Name under which the static credentials are handed to the client.
pub const CREDENTIALS_PROVIDER: &'static str = "s3-vault";

/// Message of the error for an operation made while disconnected.
pub const NOT_CONNECTED_MESSAGE: &'static str = "Not connected to S3";

/// What a connection is made with.
#[derive(Debug)]
pub struct S3Config {
    pub access_key_id: String,
    pub secret_access_key: String,
    pub region: String,
    pub bucket_name: String,
    pub endpoint_url: Option<String>,
}

/// One object of a bucket listing.
#[derive(Debug)]
pub struct S3File {
    pub key: String,
    pub size: i64,
    pub last_modified: String,
    pub storage_class: Option<String>,
}

/// One object as the store's listing reports it, where any field may be missing.
#[derive(Debug)]
pub struct ListedObject {
    pub key: Option<String>,
    pub size: Option<i64>,
    pub last_modified: Option<String>,
    pub storage_class: Option<String>,
}

/// Everything the object-store client is built from.
#[derive(Debug)]
pub struct ClientSettings {
    pub region: String,
    pub access_key_id: String,
    pub secret_access_key: String,
    /// Overrides the service endpoint, for stores other than the default one.
    pub endpoint_url: Option<String>,
    pub provider_name: String,
}

/// The bucket and key that one object operation addresses.
#[derive(Debug, PartialEq, Eq)]
pub struct ObjectTarget {
    pub bucket: String,
    pub key: String,
}

/// One listing request.
#[derive(Debug, PartialEq, Eq)]
pub struct ListRequest {
    pub bucket: String,
    pub prefix: Option<String>,
    pub max_keys: i32,
}

/// A failure of an object-store operation.
#[derive(Debug, PartialEq, Eq)]
pub enum S3Error {
    /// No connection has been made.
    NotConnected,
    /// The store or the transport failed; its message, unchanged.
    Remote(String),
}

impl S3Error {
    pub open spec fn message_view(&self) -> Seq<char> {
        match self {
            S3Error::NotConnected => NOT_CONNECTED_MESSAGE@,
            S3Error::Remote(m) => m@,
        }
    }

    /// The message that the failure carries.
    pub fn into_message(self) -> (r: String)
        ensures
            r@ == self.message_view(),
    {
        match self {
            S3Error::NotConnected => NOT_CONNECTED_MESSAGE.to_owned(),
            S3Error::Remote(m) => m,
        }
    }
}

/// The two optional strings hold the same text, or are both absent.
pub open spec fn same_opt(a: Option<String>, b: Option<String>) -> bool {
    match (a, b) {
        (None, None) => true,
        (Some(x), Some(y)) => x@ == y@,
        _ => false,
    }
}

fn clone_opt(s: &Option<String>) -> (r: Option<String>)
    ensures
        r == *s,
{
    match s {
        Some(x) => Some(x.clone()),
        None => None,
    }
}

impl S3Config {
    /// The configuration and the stored record carry the same fields.
    pub open spec fn matches(&self, c: &StoredCredentials) -> bool {
        &&& self.access_key_id@ == c.access_key_id@
        &&& self.secret_access_key@ == c.secret_access_key@
        &&& self.region@ == c.region@
        &&& self.bucket_name@ == c.bucket_name@
        &&& same_opt(self.endpoint_url, c.endpoint_url)
    }

    /// The record that remembers this configuration.
    pub fn to_credentials(&self) -> (r: StoredCredentials)
        ensures
            self.matches(&r),
    {
        StoredCredentials {
            access_key_id: self.access_key_id.clone(),
            secret_access_key: self.secret_access_key.clone(),
            region: self.region.clone(),
            bucket_name: self.bucket_name.clone(),
            endpoint_url: clone_opt(&self.endpoint_url),
        }
    }

    /// The configuration that a stored record describes.
    pub fn from_credentials(c: StoredCredentials) -> (r: S3Config)
        ensures
            r.matches(&c),
    {
        S3Config {
            access_key_id: c.access_key_id,
            secret_access_key: c.secret_access_key,
            region: c.region,
            bucket_name: c.bucket_name,
            endpoint_url: c.endpoint_url,
        }
    }

    /// What the client for this configuration is built from: its region, its static
    /// credentials, and its endpoint where one is given.
    pub fn client_settings(&self) -> (r: ClientSettings)
        ensures
            r.region@ == self.region@,
            r.access_key_id@ == self.access_key_id@,
            r.secret_access_key@ == self.secret_access_key@,
            same_opt(r.endpoint_url, self.endpoint_url),
            r.provider_name@ == CREDENTIALS_PROVIDER@,
    {
        ClientSettings {
            region: self.region.clone(),
            access_key_id: self.access_key_id.clone(),
            secret_access_key: self.secret_access_key.clone(),
            endpoint_url: clone_opt(&self.endpoint_url),
            provider_name: CREDENTIALS_PROVIDER.to_owned(),
        }
    }
}

/// The configuration to reconnect with at start-up: the saved record's, if there is one.
pub fn auto_connect_config(saved: Option<StoredCredentials>) -> (r: Option<S3Config>)
    ensures
        r is None <==> saved is None,
        r is Some ==> r->0.matches(&saved->0),
{
    match saved {
        Some(c) => Some(S3Config::from_credentials(c)),
        None => None,
    }
}

/// The entry that a listed object gives: present only where its key, size and time are.
pub open spec fn entry_of(o: ListedObject) -> Option<S3File> {
    if o.key is Some && o.size is Some && o.last_modified is Some {
        Some(
            S3File {
                key: o.key->0,
                size: o.size->0,
                last_modified: o.last_modified->0,
                storage_class: o.storage_class,
            },
        )
    } else {
        None
    }
}

/// The entries of a listing, in order, without the objects that lack a field.
pub open spec fn listing(objs: Seq<ListedObject>) -> Seq<S3File>
    decreases objs.len(),
{
    if objs.len() == 0 {
        Seq::empty()
    } else {
        let rest = listing(objs.drop_last());
        match entry_of(objs.last()) {
            Some(f) => rest.push(f),
            None => rest,
        }
    }
}

fn entry_from(o: &ListedObject) -> (r: Option<S3File>)
    ensures
        r == entry_of(*o),
{
    match (&o.key, o.size, &o.last_modified) {
        (Some(key), Some(size), Some(modified)) => Some(
            S3File {
                key: key.clone(),
                size,
                last_modified: modified.clone(),
                storage_class: clone_opt(&o.storage_class),
            },
        ),
        _ => None,
    }
}

/// The entries of a listing, dropping each object that lacks its key, size or time.
pub fn collect_listing(objects: &Vec<ListedObject>) -> (r: Vec<S3File>)
    ensures
        r@ == listing(objects@),
{
    let mut out: Vec<S3File> = Vec::new();
    let mut i: usize = 0;
    while i < objects.len()
        invariant
            i <= objects@.len(),
            out@ == listing(objects@.subrange(0, i as int)),
        decreases objects@.len() - i,
    {
        let entry = entry_from(&objects[i]);
        proof {
            assert(objects@.subrange(0, i + 1).drop_last() =~= objects@.subrange(0, i as int));
        }
        match entry {
            Some(f) => out.push(f),
            None => {},
        }
        i = i + 1;
    }
    assert(objects@.subrange(0, objects@.len() as int) =~= objects@);
    out
}

/// An active connection: the configuration it was made with and the client built from it.
pub struct Connection<C> {
    pub config: S3Config,
    pub client: C,
}

/// Holds the single connection slot, empty until the first `connect`.
///
/// `C` is the object-store client. Every operation reads the slot and hands out the
/// client together with what to call it with; only `connect` changes the slot.
pub struct S3Manager<C> {
    slot: Option<Connection<C>>,
}

impl<C> S3Manager<C> {
    /// The configuration of the active connection, or `None` while disconnected.
    pub closed spec fn config_view(&self) -> Option<S3Config> {
        match self.slot {
            Some(c) => Some(c.config),
            None => None,
        }
    }

    /// The client of the active connection, or `None` while disconnected.
    pub closed spec fn client_view(&self) -> Option<C> {
        match self.slot {
            Some(c) => Some(c.client),
            None => None,
        }
    }

    /// The manager is connected with exactly this configuration and client.
    pub open spec fn is_connected_to(&self, config: S3Config, client: C) -> bool {
        self.config_view() == Some(config) && self.client_view() == Some(client)
    }

    /// What an object operation on `key` is owed: the client and the bucket of the active
    /// connection, or `NotConnected`.
    pub open spec fn object_call(&self, key: Seq<char>) -> Result<(C, Seq<char>, Seq<char>), S3Error> {
        match (self.client_view(), self.config_view()) {
            (Some(client), Some(config)) => Ok((client, config.bucket_name@, key)),
            _ => Err(S3Error::NotConnected),
        }
    }

    /// A manager with no connection.
    pub fn new() -> (r: Self)
        ensures
            r.config_view() is None,
            r.client_view() is None,
    {
        S3Manager { slot: None }
    }

    /// Whether a connection is active.
    pub fn is_connected(&self) -> (r: bool)
        ensures
            r == self.config_view() is Some,
            r == self.client_view() is Some,
    {
        self.slot.is_some()
    }

    /// Makes `client`, built from `config`, the active connection, in place of any earlier one.
    pub fn connect(&mut self, config: S3Config, client: C)
        ensures
            final(self).is_connected_to(config, client),
    {
        self.slot = Some(Connection { config, client });
    }

    /// Connects with the configuration and client restored at start-up, if there are any;
    /// returns whether it did. Without them the manager is left as it was.
    pub fn restore(&mut self, restored: Option<(S3Config, C)>) -> (r: bool)
        ensures
            r == restored is Some,
            restored is None ==> *final(self) == *old(self),
            restored is Some ==> final(self).is_connected_to((restored->0).0, (restored->0).1),
    {
        match restored {
            Some((config, client)) => {
                self.connect(config, client);
                true
            },
            None => false,
        }
    }

    fn target(&self, key: &str) -> (r: Result<(&C, ObjectTarget), S3Error>)
        ensures
            self.object_call(key@) is Err ==> r == Err::<(&C, ObjectTarget), S3Error>(S3Error::NotConnected),
            self.object_call(key@) is Ok ==> r is Ok && *r->Ok_0.0 == self.object_call(key@)->Ok_0.0
                && r->Ok_0.1.bucket@ == self.object_call(key@)->Ok_0.1 && r->Ok_0.1.key@ == key@,
    {
        match &self.slot {
            Some(c) => Ok((&c.client, ObjectTarget { bucket: c.config.bucket_name.clone(), key: key.to_owned() })),
            None => Err(S3Error::NotConnected),
        }
    }

    /// The listing request for the active connection: its bucket, the given prefix, and at
    /// most `LIST_LIMIT` objects; `NotConnected` while disconnected, with no client handed out.
    pub fn list_files(&self, prefix: Option<String>) -> (r: Result<(&C, ListRequest), S3Error>)
        ensures
            self.config_view() is None ==> r == Err::<(&C, ListRequest), S3Error>(S3Error::NotConnected),
            self.config_view() is Some ==> r is Ok && *r->Ok_0.0 == self.client_view()->0
                && r->Ok_0.1.bucket@ == self.config_view()->0.bucket_name@ && r->Ok_0.1.prefix == prefix
                && r->Ok_0.1.max_keys == LIST_LIMIT,
    {
        match &self.slot {
            Some(c) => Ok(
                (&c.client, ListRequest { bucket: c.config.bucket_name.clone(), prefix, max_keys: LIST_LIMIT }),
            ),
            None => Err(S3Error::NotConnected),
        }
    }

    /// The client and target for downloading `key`; `NotConnected` while disconnected.
    pub fn download_file(&self, key: &str) -> (r: Result<(&C, ObjectTarget), S3Error>)
        ensures
            self.object_call(key@) is Err ==> r == Err::<(&C, ObjectTarget), S3Error>(S3Error::NotConnected),
            self.object_call(key@) is Ok ==> r is Ok && *r->Ok_0.0 == self.object_call(key@)->Ok_0.0
                && r->Ok_0.1.bucket@ == self.object_call(key@)->Ok_0.1 && r->Ok_0.1.key@ == key@,
    {
        self.target(key)
    }

    /// The client and target for uploading to `key`; `NotConnected` while disconnected.
    pub fn upload_file(&self, key: &str) -> (r: Result<(&C, ObjectTarget), S3Error>)
        ensures
            self.object_call(key@) is Err ==> r == Err::<(&C, ObjectTarget), S3Error>(S3Error::NotConnected),
            self.object_call(key@) is Ok ==> r is Ok && *r->Ok_0.0 == self.object_call(key@)->Ok_0.0
                && r->Ok_0.1.bucket@ == self.object_call(key@)->Ok_0.1 && r->Ok_0.1.key@ == key@,
    {
        self.target(key)
    }

    /// The client and target for deleting `key`; `NotConnected` while disconnected.
    pub fn delete_file(&self, key: &str) -> (r: Result<(&C, ObjectTarget), S3Error>)
        ensures
            self.object_call(key@) is Err ==> r == Err::<(&C, ObjectTarget), S3Error>(S3Error::NotConnected),
            self.object_call(key@) is Ok ==> r is Ok && *r->Ok_0.0 == self.object_call(key@)->Ok_0.0
                && r->Ok_0.1.bucket@ == self.object_call(key@)->Ok_0.1 && r->Ok_0.1.key@ == key@,
    {
        self.target(key)
    }
}

/// While disconnected, every object operation fails with `NotConnected` and hands out no
/// client.
pub proof fn lemma_disconnected_gates<C>(m: S3Manager<C>, key: Seq<char>)
    requires
        m.config_view() is None,
    ensures
        m.object_call(key) == Err::<(C, Seq<char>, Seq<char>), S3Error>(S3Error::NotConnected),
{
}

/// After a second `connect`, every operation uses the second configuration and client and
/// nothing of the first.
pub proof fn lemma_connect_replaces<C>(
    first: S3Manager<C>,
    second: S3Manager<C>,
    a: S3Config,
    client_a: C,
    b: S3Config,
    client_b: C,
    key: Seq<char>,
)
    requires
        first.is_connected_to(a, client_a),
        second.is_connected_to(b, client_b),
    ensures
        second.config_view() == Some(b),
        second.object_call(key) == Ok::<(C, Seq<char>, Seq<char>), S3Error>((client_b, b.bucket_name@, key)),
{
}

} // verus!
