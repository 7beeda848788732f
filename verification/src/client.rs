//! Client construction and the session registry.
//!
//! A client handle is the authenticated connection object of the storage
//! SDK, built once per endpoint configuration. The registry caches at most
//! one live handle per configuration id, so concurrent transfers that name
//! the same configuration share one connection.

use vstd::prelude::*;

use crate::types::{clone_opt_string, S3Config, S3Error};

verus! {

#[verifier::external_type_specification]
#[verifier::external_body]
pub struct ExCredentials(aws_credential_types::Credentials);

#[verifier::external_type_specification]
#[verifier::external_body]
pub struct ExRegion(aws_sdk_s3::config::Region);

#[verifier::external_type_specification]
#[verifier::external_body]
pub struct ExAwsClient(aws_sdk_s3::Client);

/// Relies on aws_credential_types::Credentials::new: packs the given access
/// key, secret and optional session token into a static credential set with
/// no expiry; it performs no I/O and never fails.
#[verifier::external_body]
fn make_credentials(
    access_key_id: &str,
    secret_access_key: &str,
    session_token: Option<String>,
    provider_name: &'static str,
) -> aws_credential_types::Credentials {
    aws_credential_types::Credentials::new(
        access_key_id,
        secret_access_key,
        session_token,
        None,
        provider_name,
    )
}

/// Relies on aws_sdk_s3::config::Region::new: wraps the given region name;
/// any string is accepted.
#[verifier::external_body]
fn make_region(name: String) -> aws_sdk_s3::config::Region {
    aws_sdk_s3::config::Region::new(name)
}

/// Relies on aws_sdk_s3::Config::builder and Client::from_conf: wires the
/// credentials and region into a client handle. Pure setup — no
/// connectivity probe, no failure path.
#[verifier::external_body]
fn build_client(
    credentials: aws_credential_types::Credentials,
    region: aws_sdk_s3::config::Region,
) -> aws_sdk_s3::Client {
    let conf = aws_sdk_s3::Config::builder()
        .behavior_version(aws_sdk_s3::config::BehaviorVersion::latest())
        .region(region)
        .credentials_provider(credentials)
        .build();
    aws_sdk_s3::Client::from_conf(conf)
}

/// Relies on aws_sdk_s3::Config::builder, its endpoint_url setter and
/// Client::from_conf: as `build_client`, but aimed at a custom endpoint URL.
#[verifier::external_body]
fn build_client_with_endpoint(
    credentials: aws_credential_types::Credentials,
    region: aws_sdk_s3::config::Region,
    endpoint_url: &str,
) -> aws_sdk_s3::Client {
    let conf = aws_sdk_s3::Config::builder()
        .behavior_version(aws_sdk_s3::config::BehaviorVersion::latest())
        .region(region)
        .credentials_provider(credentials)
        .endpoint_url(endpoint_url)
        .build();
    aws_sdk_s3::Client::from_conf(conf)
}

/// Relies on aws_sdk_s3::Client::clone: the client is a shared handle (an
/// `Arc` within), and its derived clone is the same underlying connection.
#[verifier::external_body]
fn clone_aws_client(c: &aws_sdk_s3::Client) -> (r: aws_sdk_s3::Client)
    ensures
        r == *c,
{
    c.clone()
}

/// The region a configuration resolves to: its own, or the default.
pub open spec fn spec_region_name(region: Option<String>) -> Seq<char> {
    match region {
        Some(r) => r@,
        None => "us-east-1"@,
    }
}

/// Resolves the region name of a configuration, falling back to the
/// default region when none is set.
pub fn effective_region_name(region: &Option<String>) -> (r: String)
    ensures
        r@ == spec_region_name(*region),
{
    match region {
        Some(name) => name.clone(),
        None => "us-east-1".to_owned(),
    }
}

/// An authenticated connection bound to one endpoint configuration.
pub struct S3Client {
    pub client: aws_sdk_s3::Client,
    pub config: S3Config,
}

impl Clone for S3Client {
    fn clone(&self) -> (r: Self)
        ensures
            r == *self,
    {
        S3Client { client: clone_aws_client(&self.client), config: self.config.clone() }
    }
}

impl S3Client {
    /// Builds the client handle for a configuration. Construction is pure
    /// setup (credential packing, region and endpoint wiring): it performs
    /// no network round trip and never fails.
    pub fn new(config: S3Config) -> (r: Result<S3Client, S3Error>)
        ensures
            r matches Ok(c) && c.config == config,
    {
        let credentials = make_credentials(
            config.access_key_id.as_str(),
            config.secret_access_key.as_str(),
            clone_opt_string(&config.session_token),
            "s3-gui",
        );
        let region = make_region(effective_region_name(&config.region));
        let client = match &config.endpoint {
            Some(endpoint) => build_client_with_endpoint(credentials, region, endpoint.as_str()),
            None => build_client(credentials, region),
        };
        Ok(S3Client { client, config })
    }

    /// The underlying SDK client handle.
    pub fn client(&self) -> (r: &aws_sdk_s3::Client)
        ensures
            *r == self.client,
    {
        &self.client
    }

    /// The configuration this client was built for.
    pub fn config(&self) -> (r: &S3Config)
        ensures
            *r == self.config,
    {
        &self.config
    }
}

/// One cached client, filed under its configuration id.
pub struct RegistryEntry {
    pub id: String,
    pub client: S3Client,
}

/// The session registry: at most one live client per configuration id.
pub struct S3ClientManager {
    pub entries: Vec<RegistryEntry>,
}

/// The cache a list of entries stands for: a map from configuration id to
/// the client filed under it.
pub open spec fn entries_map(s: Seq<RegistryEntry>) -> Map<Seq<char>, S3Client>
    decreases s.len(),
{
    if s.len() == 0 {
        Map::empty()
    } else {
        entries_map(s.drop_last()).insert(s.last().id@, s.last().client)
    }
}

/// No two entries share a configuration id.
pub open spec fn unique_ids(s: Seq<RegistryEntry>) -> bool {
    forall|i: int, j: int|
        0 <= i < j < s.len() ==> (#[trigger] s[i]).id@ != (#[trigger] s[j]).id@
}

/// An id is in the cache exactly when some entry carries it.
proof fn lemma_entries_map_domain(s: Seq<RegistryEntry>, id: Seq<char>)
    ensures
        entries_map(s).contains_key(id) <==> exists|i: int|
            0 <= i < s.len() && (#[trigger] s[i]).id@ == id,
    decreases s.len(),
{
    if s.len() > 0 {
        lemma_entries_map_domain(s.drop_last(), id);
        if s.last().id@ == id {
            assert(s[s.len() - 1].id@ == id);
        } else {
            if entries_map(s).contains_key(id) {
                let i = choose|i: int| 0 <= i < s.drop_last().len() && (#[trigger] s.drop_last()[
                    i
                ]).id@ == id;
                assert(s[i].id@ == id);
            }
            if exists|i: int| 0 <= i < s.len() && (#[trigger] s[i]).id@ == id {
                let i = choose|i: int| 0 <= i < s.len() && (#[trigger] s[i]).id@ == id;
                assert(i < s.len() - 1);
                assert(s.drop_last()[i].id@ == id);
            }
        }
    }
}

/// Each entry of a duplicate-free list is found in the cache under its id.
proof fn lemma_entries_map_get(s: Seq<RegistryEntry>, i: int)
    requires
        unique_ids(s),
        0 <= i < s.len(),
    ensures
        entries_map(s).contains_key(s[i].id@),
        entries_map(s)[s[i].id@] == s[i].client,
    decreases s.len(),
{
    if i == s.len() - 1 {
    } else {
        assert(unique_ids(s.drop_last())) by {
            assert(forall|x: int, y: int|
                0 <= x < y < s.drop_last().len() ==> s.drop_last()[x] == s[x] && s.drop_last()[y]
                    == s[y]);
        }
        assert(s.drop_last()[i] == s[i]);
        lemma_entries_map_get(s.drop_last(), i);
        assert(s[i].id@ != s.last().id@);
    }
}

/// Removing the entry of an id removes exactly that id from the cache.
proof fn lemma_entries_map_remove(s: Seq<RegistryEntry>, i: int)
    requires
        unique_ids(s),
        0 <= i < s.len(),
    ensures
        entries_map(s.remove(i)) == entries_map(s).remove(s[i].id@),
    decreases s.len(),
{
    assert(unique_ids(s.drop_last())) by {
        assert(forall|x: int, y: int|
            0 <= x < y < s.drop_last().len() ==> s.drop_last()[x] == s[x] && s.drop_last()[y]
                == s[y]);
    }
    if i == s.len() - 1 {
        assert(s.remove(i) =~= s.drop_last());
        lemma_entries_map_domain(s.drop_last(), s[i].id@);
        assert(forall|x: int| 0 <= x < s.drop_last().len() ==> s.drop_last()[x] == s[x]);
        assert(!entries_map(s.drop_last()).contains_key(s[i].id@));
        assert(entries_map(s.drop_last()) =~= entries_map(s).remove(s[i].id@));
    } else {
        let t = s.remove(i);
        assert(t.drop_last() =~= s.drop_last().remove(i));
        assert(t.last() == s.last());
        assert(s.drop_last()[i] == s[i]);
        lemma_entries_map_remove(s.drop_last(), i);
        assert(s[i].id@ != s.last().id@);
        assert(entries_map(t) =~= entries_map(s).remove(s[i].id@));
    }
}

/// Law: a well-formed registry holds at most one live client per
/// configuration id — two entries filed under the same id are one entry.
pub proof fn lemma_at_most_one_client_per_id(m: S3ClientManager, i: int, j: int)
    requires
        m.wf(),
        0 <= i < m.entries@.len(),
        0 <= j < m.entries@.len(),
        m.entries@[i].id@ == m.entries@[j].id@,
    ensures
        i == j,
{
}

impl View for S3ClientManager {
    type V = Map<Seq<char>, S3Client>;

    open spec fn view(&self) -> Map<Seq<char>, S3Client> {
        entries_map(self.entries@)
    }
}

impl S3ClientManager {
    /// Well-formed: ids are unique, and each entry is filed under the id of
    /// the configuration its client was built for.
    pub open spec fn wf(self) -> bool {
        &&& unique_ids(self.entries@)
        &&& forall|i: int|
            0 <= i < self.entries@.len() ==> (#[trigger] self.entries@[i]).id@
                == self.entries@[i].client.config.id@
    }

    /// An empty registry.
    pub fn new() -> (r: S3ClientManager)
        ensures
            r.wf(),
            r@ == Map::<Seq<char>, S3Client>::empty(),
    {
        S3ClientManager { entries: Vec::new() }
    }

    /// The index of the entry filed under `id`, if one exists.
    fn find_index(&self, id: &String) -> (r: Option<usize>)
        ensures
            match r {
                Some(i) => i < self.entries@.len() && self.entries@[i as int].id@ == id@,
                None => forall|j: int|
                    0 <= j < self.entries@.len() ==> (#[trigger] self.entries@[j]).id@ != id@,
            },
    {
        let mut i: usize = 0;
        while i < self.entries.len()
            invariant
                0 <= i <= self.entries@.len(),
                forall|j: int| 0 <= j < i ==> (#[trigger] self.entries@[j]).id@ != id@,
            decreases self.entries@.len() - i,
        {
            if self.entries[i].id == *id {
                return Some(i);
            }
            i = i + 1;
        }
        None
    }

    /// Whether a client is cached under `id`.
    pub fn contains_client(&self, id: &String) -> (r: bool)
        ensures
            r == self@.contains_key(id@),
    {
        proof {
            lemma_entries_map_domain(self.entries@, id@);
        }
        match self.find_index(id) {
            Some(_) => true,
            None => false,
        }
    }

    /// The client cached under `id`, if any, without constructing one.
    /// This is the registry's read path: it never changes the cache.
    pub fn get_client(&self, id: &String) -> (r: Option<S3Client>)
        requires
            self.wf(),
        ensures
            match r {
                Some(c) => self@.contains_key(id@) && c == self@[id@],
                None => !self@.contains_key(id@),
            },
    {
        proof {
            lemma_entries_map_domain(self.entries@, id@);
        }
        match self.find_index(id) {
            Some(i) => {
                proof {
                    lemma_entries_map_get(self.entries@, i as int);
                }
                Some(self.entries[i].client.clone())
            },
            None => None,
        }
    }

    /// Returns the cached client for the configuration's id, or constructs
    /// one, files it, and returns it. A hit leaves the cache untouched and
    /// hands out the cached handle itself; a miss adds exactly one entry.
    /// Construction never fails, so the result is always the client.
    pub fn get_or_create_client(&mut self, config: &S3Config) -> (r: Result<S3Client, S3Error>)
        requires
            old(self).wf(),
        ensures
            final(self).wf(),
            r matches Ok(c) && if old(self)@.contains_key(config.id@) {
                c == old(self)@[config.id@] && final(self)@ == old(self)@
            } else {
                c.config == *config && final(self)@ == old(self)@.insert(config.id@, c)
            },
    {
        proof {
            lemma_entries_map_domain(self.entries@, config.id@);
        }
        match self.find_index(&config.id) {
            Some(i) => {
                proof {
                    lemma_entries_map_get(self.entries@, i as int);
                }
                Ok(self.entries[i].client.clone())
            },
            None => {
                let created = match S3Client::new(config.clone()) {
                    Ok(c) => c,
                    Err(e) => {
                        proof {
                            assert(false);
                        }
                        return Err(e);
                    },
                };
                let ghost prev = self.entries@;
                let entry = RegistryEntry { id: config.id.clone(), client: created.clone() };
                self.entries.push(entry);
                proof {
                    assert(self.entries@.drop_last() =~= prev);
                    assert(forall|x: int|
                        0 <= x < prev.len() ==> self.entries@[x] == prev[x]);
                }
                Ok(created)
            },
        }
    }

    /// Drops the cached client for `id`, if any, forcing the next acquire
    /// of that id to reconstruct. Other entries are untouched.
    pub fn remove_client(&mut self, id: &str)
        requires
            old(self).wf(),
        ensures
            final(self).wf(),
            final(self)@ == old(self)@.remove(id@),
    {
        let owned: String = id.to_owned();
        proof {
            lemma_entries_map_domain(self.entries@, id@);
        }
        match self.find_index(&owned) {
            Some(i) => {
                proof {
                    lemma_entries_map_remove(self.entries@, i as int);
                }
                let ghost s = self.entries@;
                self.entries.remove(i);
                proof {
                    assert forall|x: int, y: int|
                        0 <= x < y < self.entries@.len() implies (#[trigger] self.entries@[x]).id@
                        != (#[trigger] self.entries@[y]).id@ by {
                        if x < i as int {
                            assert(self.entries@[x] == s[x]);
                        } else {
                            assert(self.entries@[x] == s[x + 1]);
                        }
                        if y < i as int {
                            assert(self.entries@[y] == s[y]);
                        } else {
                            assert(self.entries@[y] == s[y + 1]);
                        }
                    }
                }
            },
            None => {
                proof {
                    assert(!self@.contains_key(id@));
                    assert(self@ =~= self@.remove(id@));
                }
            },
        }
    }
}

} // verus!
