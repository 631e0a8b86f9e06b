use vstd::prelude::*;

verus! {

/// Full-node endpoint of the development network.
pub const SUI_DEVNET_URL: &'static str = "https://fullnode.devnet.sui.io:443";

/// Full-node endpoint of the test network.
pub const SUI_TESTNET_URL: &'static str = "https://fullnode.testnet.sui.io:443";

/// Full-node endpoint of a network run on the local machine.
pub const SUI_LOCAL_NETWORK_URL: &'static str = "http://127.0.0.1:9000";

/// Settings of the light client that follows an Ethereum chain.
#[derive(Debug, Clone)]
pub struct EthClientSettings {
    pub eth_execution_rpc: Option<String>,
    pub eth_consensus_rpc: Option<String>,
    pub eth_chain_id: Option<u64>,
    pub eth_genesis_time: Option<u64>,
    pub eth_genesis_validators_root: Option<String>,
    /// Identifier of the on-chain state object, as its 32 address bytes.
    pub state_object_id: Option<[u8; 32]>,
}

/// One named network environment: its alias and endpoints.
#[derive(Debug, Clone)]
pub struct SuiEnv {
    pub alias: String,
    pub rpc: String,
    pub ws: Option<String>,
    pub eth_client_settings: Option<EthClientSettings>,
}

/// Client configuration: a keystore, the known environments, and the active
/// environment and address.
pub struct SuiClientConfig<K> {
    pub keystore: K,
    pub envs: Vec<SuiEnv>,
    pub active_env: Option<String>,
    /// The active address, as its 32 bytes.
    pub active_address: Option<[u8; 32]>,
}

/// No active environment could be found under the given alias.
#[derive(Debug, Clone)]
pub struct EnvNotFound {
    pub alias: Option<String>,
}

/// `i` is the first position of `envs` whose alias is `alias`.
pub open spec fn first_with_alias(envs: Seq<SuiEnv>, alias: Seq<char>, i: int) -> bool {
    &&& 0 <= i < envs.len()
    &&& envs[i].alias@ == alias
    &&& forall|j: int| 0 <= j < i ==> envs[j].alias@ != alias
}

/// Some environment of `envs` has alias `alias`.
pub open spec fn has_alias(envs: Seq<SuiEnv>, alias: Seq<char>) -> bool {
    exists|j: int| 0 <= j < envs.len() && envs[j].alias@ == alias
}

/// No two environments of `envs` share an alias.
pub open spec fn aliases_distinct(envs: Seq<SuiEnv>) -> bool {
    forall|i: int, j: int|
        0 <= i < envs.len() && 0 <= j < envs.len() && i != j ==> envs[i].alias@ != envs[j].alias@
}

/// The environment that `get_env` selects: the first one with the given
/// alias, or the first one where no alias is given.
pub open spec fn selects(envs: Seq<SuiEnv>, alias: Option<String>, r: Option<&SuiEnv>) -> bool {
    if alias is Some {
        match r {
            Some(e) => exists|i: int|
                #[trigger] first_with_alias(envs, alias->Some_0@, i) && e == envs[i],
            None => !has_alias(envs, alias->Some_0@),
        }
    } else {
        match r {
            Some(e) => envs.len() > 0 && e == envs[0],
            None => envs.len() == 0,
        }
    }
}

impl<K> SuiClientConfig<K> {
    /// A configuration with no environments and nothing active.
    pub fn new(keystore: K) -> (r: Self)
        ensures
            r.keystore == keystore,
            r.envs@.len() == 0,
            r.active_env is None,
            r.active_address is None,
    {
        SuiClientConfig { keystore, envs: Vec::new(), active_env: None, active_address: None }
    }

    /// The environment with the given alias, or the first environment where
    /// no alias is given.
    pub fn get_env(&self, alias: &Option<String>) -> (r: Option<&SuiEnv>)
        ensures
            selects(self.envs@, *alias, r),
    {
        match alias {
            Some(a) => {
                let mut i: usize = 0;
                while i < self.envs.len()
                    invariant
                        i <= self.envs@.len(),
                        *alias == Some(*a),
                        forall|j: int| 0 <= j < i ==> self.envs@[j].alias@ != a@,
                    decreases self.envs@.len() - i,
                {
                    if self.envs[i].alias == *a {
                        let found = &self.envs[i];
                        assert(first_with_alias(self.envs@, alias->Some_0@, i as int));
                        return Some(found);
                    }
                    i = i + 1;
                }
                None
            },
            None => {
                if self.envs.len() == 0 {
                    None
                } else {
                    Some(&self.envs[0])
                }
            },
        }
    }

    /// The active environment, or which alias was not found.
    pub fn get_active_env(&self) -> (r: Result<&SuiEnv, EnvNotFound>)
        ensures
            match r {
                Ok(e) => selects(self.envs@, self.active_env, Some(e)),
                Err(err) => selects(self.envs@, self.active_env, None) && err.alias
                    == self.active_env,
            },
    {
        match self.get_env(&self.active_env) {
            Some(e) => Ok(e),
            None => Err(EnvNotFound { alias: self.active_env.clone() }),
        }
    }

    /// Adds an environment unless one with the same alias is already known.
    pub fn add_env(&mut self, env: SuiEnv)
        ensures
            final(self).keystore == old(self).keystore,
            final(self).active_env == old(self).active_env,
            final(self).active_address == old(self).active_address,
            has_alias(old(self).envs@, env.alias@) ==> final(self).envs@ == old(self).envs@,
            !has_alias(old(self).envs@, env.alias@) ==> final(self).envs@ == old(self).envs@.push(
                env,
            ),
    {
        let mut i: usize = 0;
        while i < self.envs.len()
            invariant
                i <= self.envs@.len(),
                forall|j: int| 0 <= j < i ==> self.envs@[j].alias@ != env.alias@,
            decreases self.envs@.len() - i,
        {
            if self.envs[i].alias == env.alias {
                return;
            }
            i = i + 1;
        }
        self.envs.push(env);
    }
}

/// Adding environments keeps their aliases distinct.
pub proof fn lemma_add_env_keeps_aliases_distinct(before: Seq<SuiEnv>, env: SuiEnv, after: Seq<SuiEnv>)
    requires
        aliases_distinct(before),
        has_alias(before, env.alias@) ==> after == before,
        !has_alias(before, env.alias@) ==> after == before.push(env),
    ensures
        aliases_distinct(after),
        has_alias(after, env.alias@),
{
    if !has_alias(before, env.alias@) {
        assert(after[before.len() as int] == env);
    }
}

impl SuiEnv {
    /// The development network.
    pub fn devnet() -> (r: Self)
        ensures
            r.alias@ == "devnet"@,
            r.rpc@ == SUI_DEVNET_URL@,
            r.ws is None,
            r.eth_client_settings is None,
    {
        SuiEnv {
            alias: "devnet".to_string(),
            rpc: SUI_DEVNET_URL.to_string(),
            ws: None,
            eth_client_settings: None,
        }
    }

    /// The test network.
    pub fn testnet() -> (r: Self)
        ensures
            r.alias@ == "testnet"@,
            r.rpc@ == SUI_TESTNET_URL@,
            r.ws is None,
            r.eth_client_settings is None,
    {
        SuiEnv {
            alias: "testnet".to_string(),
            rpc: SUI_TESTNET_URL.to_string(),
            ws: None,
            eth_client_settings: None,
        }
    }

    /// A network run on the local machine.
    pub fn localnet() -> (r: Self)
        ensures
            r.alias@ == "local"@,
            r.rpc@ == SUI_LOCAL_NETWORK_URL@,
            r.ws is None,
            r.eth_client_settings is None,
    {
        SuiEnv {
            alias: "local".to_string(),
            rpc: SUI_LOCAL_NETWORK_URL.to_string(),
            ws: None,
            eth_client_settings: None,
        }
    }
}

} // verus!
