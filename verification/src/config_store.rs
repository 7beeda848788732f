//! The configuration store: an ordered list of endpoint configurations,
//! looked up, replaced and deleted by their id. Lookups find the first
//! entry with the id; deletion drops every entry with it.

use vstd::prelude::*;

use crate::types::{S3Config, S3Error};

verus! {

/// Keeps the endpoint configurations a caller has registered.
pub struct ConfigManager {
    pub configs: Vec<S3Config>,
}

impl View for ConfigManager {
    type V = Seq<S3Config>;

    open spec fn view(&self) -> Seq<S3Config> {
        self.configs@
    }
}

/// The configurations of `s` whose id is not `id`, in their stored order.
pub open spec fn spec_without_id(s: Seq<S3Config>, id: Seq<char>) -> Seq<S3Config>
    decreases s.len(),
{
    if s.len() == 0 {
        Seq::empty()
    } else {
        let rest = spec_without_id(s.drop_last(), id);
        if s.last().id@ != id {
            rest.push(s.last())
        } else {
            rest
        }
    }
}

/// Copies a configuration list, value for value.
pub fn clone_configs(configs: &Vec<S3Config>) -> (r: Vec<S3Config>)
    ensures
        r@ == configs@,
{
    let mut r: Vec<S3Config> = Vec::new();
    let mut i: usize = 0;
    while i < configs.len()
        invariant
            0 <= i <= configs.len(),
            r@ =~= configs@.take(i as int),
        decreases configs.len() - i,
    {
        r.push(configs[i].clone());
        proof {
            assert(r@ =~= configs@.take(i as int + 1));
        }
        i = i + 1;
    }
    proof {
        assert(configs@.take(configs@.len() as int) =~= configs@);
    }
    r
}

impl ConfigManager {
    /// An empty store.
    pub fn new() -> (r: ConfigManager)
        ensures
            r@ == Seq::<S3Config>::empty(),
    {
        ConfigManager { configs: Vec::new() }
    }

    /// Appends a configuration. Never fails.
    pub fn add_config(&mut self, config: S3Config) -> (r: Result<(), S3Error>)
        ensures
            r is Ok,
            final(self)@ == old(self)@.push(config),
    {
        self.configs.push(config);
        Ok(())
    }

    /// Hands out a copy of every stored configuration, in order.
    pub fn get_configs(&self) -> (r: Result<Vec<S3Config>, S3Error>)
        ensures
            r matches Ok(v) && v@ == self@,
    {
        Ok(clone_configs(&self.configs))
    }

    /// The first configuration stored under `id`, or `NotFound` when no
    /// entry carries that id.
    pub fn get_config(&self, id: &str) -> (r: Result<S3Config, S3Error>)
        ensures
            (r is Ok <==> exists|j: int|
                0 <= j < self@.len() && (#[trigger] self@[j]).id@ == id@),
            r matches Ok(c) ==> exists|j: int|
                {
                    &&& 0 <= j < self@.len()
                    &&& (#[trigger] self@[j]).id@ == id@
                    &&& c == self@[j]
                    &&& forall|k: int| 0 <= k < j ==> (#[trigger] self@[k]).id@ != id@
                },
            r matches Err(e) ==> e matches S3Error::NotFound(_),
    {
        let owned: String = id.to_owned();
        let mut i: usize = 0;
        while i < self.configs.len()
            invariant
                0 <= i <= self.configs@.len(),
                owned@ == id@,
                forall|k: int| 0 <= k < i ==> (#[trigger] self.configs@[k]).id@ != id@,
            decreases self.configs@.len() - i,
        {
            if self.configs[i].id == owned {
                return Ok(self.configs[i].clone());
            }
            i = i + 1;
        }
        Err(S3Error::NotFound("no configuration carries this id".to_owned()))
    }

    /// Drops every configuration stored under `id`. Never fails.
    pub fn delete_config(&mut self, id: &str) -> (r: Result<(), S3Error>)
        ensures
            r is Ok,
            final(self)@ == spec_without_id(old(self)@, id@),
    {
        let owned: String = id.to_owned();
        let mut kept: Vec<S3Config> = Vec::new();
        let mut i: usize = 0;
        while i < self.configs.len()
            invariant
                0 <= i <= self.configs@.len(),
                owned@ == id@,
                kept@ == spec_without_id(self.configs@.take(i as int), id@),
            decreases self.configs@.len() - i,
        {
            let ghost before = self.configs@.take(i as int);
            let ghost after = self.configs@.take(i as int + 1);
            proof {
                assert(after.drop_last() =~= before);
                assert(after.last() == self.configs@[i as int]);
            }
            if !(self.configs[i].id == owned) {
                kept.push(self.configs[i].clone());
            }
            i = i + 1;
        }
        proof {
            assert(self.configs@.take(self.configs@.len() as int) =~= self.configs@);
        }
        self.configs = kept;
        Ok(())
    }

    /// Replaces the first configuration stored under the same id, or
    /// reports `NotFound` and leaves the store unchanged.
    pub fn update_config(&mut self, config: S3Config) -> (r: Result<(), S3Error>)
        ensures
            (r is Ok <==> exists|j: int|
                0 <= j < old(self)@.len() && (#[trigger] old(self)@[j]).id@ == config.id@),
            r is Ok ==> exists|j: int|
                {
                    &&& 0 <= j < old(self)@.len()
                    &&& (#[trigger] old(self)@[j]).id@ == config.id@
                    &&& final(self)@ == old(self)@.update(j, config)
                    &&& forall|k: int| 0 <= k < j ==> (#[trigger] old(self)@[k]).id@ != config.id@
                },
            r is Err ==> final(self)@ == old(self)@,
            r matches Err(e) ==> e matches S3Error::NotFound(_),
    {
        let mut i: usize = 0;
        while i < self.configs.len()
            invariant
                0 <= i <= self.configs@.len(),
                self.configs@ == old(self)@,
                forall|k: int| 0 <= k < i ==> (#[trigger] self.configs@[k]).id@ != config.id@,
            decreases self.configs@.len() - i,
        {
            if self.configs[i].id == config.id {
                let ghost j = i as int;
                self.configs.remove(i);
                self.configs.insert(i, config);
                proof {
                    assert(self@ =~= old(self)@.update(j, config));
                }
                return Ok(());
            }
            i = i + 1;
        }
        Err(S3Error::NotFound("no configuration carries this id".to_owned()))
    }
}

} // verus!
