//! The search providers that the server works with.
use vstd::prelude::*;

use crate::json::{json, Json};
use crate::provider::{configured_url, connection_url, factory, PostgresqlSearchProvider};
use crate::spi::{SearchProviderConfig, SearchProviderKind};

verus! {

/// The search providers. `P` is the connection pool of those on PostgreSQL.
#[derive(Debug)]
pub struct SearchProviderRegistry<P> {
    /// The name of the provider in memory.
    pub memory: String,
    /// The providers on PostgreSQL.
    pub postgresql: Vec<PostgresqlSearchProvider<P>>,
    /// The kind of the provider that serves a request that asks for none.
    pub default_kind: SearchProviderKind,
    /// The kinds that providers can be made of.
    pub factories: Vec<SearchProviderKind>,
}

/// Whether a provider is to be made of the configuration: one on PostgreSQL that is
/// switched on.
pub open spec fn is_wanted(config: SearchProviderConfig) -> bool {
    config.enabled && config.kind == SearchProviderKind::Postgresql
}

/// Whether a provider is made: it is wanted, its address is named, and connecting to
/// it gave a pool.
pub open spec fn is_made<P>(config: SearchProviderConfig, pool: Result<P, String>) -> bool {
    is_wanted(config) && configured_url(config) is Some && pool is Ok
}

/// The names and the pools of the providers that are made, in the order of their
/// configurations.
pub open spec fn made<P>(configs: Seq<SearchProviderConfig>, pools: Seq<Result<P, String>>) -> Seq<
    (Seq<char>, P),
>
    decreases configs.len(),
{
    if configs.len() == 0 || configs.len() != pools.len() {
        seq![]
    } else {
        let before = made(configs.drop_last(), pools.drop_last());
        if is_made(configs.last(), pools.last()) {
            before.push((configs.last().id@, pools.last()->Ok_0))
        } else {
            before
        }
    }
}

/// The names and the pools of the providers.
pub open spec fn registered<P>(providers: Seq<PostgresqlSearchProvider<P>>) -> Seq<(Seq<char>, P)> {
    Seq::new(providers.len(), |i: int| (providers[i].id@, providers[i].pool))
}

/// The address to connect to for a provider, where one is wanted and names it.
pub fn wanted_address(config: &SearchProviderConfig) -> (address: Option<String>)
    ensures
        match address {
            Some(url) => is_wanted(*config) && configured_url(*config) == Some(url@),
            None => !is_wanted(*config) || configured_url(*config) is None,
        },
{
    if config.enabled && config.kind == SearchProviderKind::Postgresql {
        match connection_url(config) {
            Ok(url) => Some(url),
            Err(_) => None,
        }
    } else {
        None
    }
}

/// The registry of the configurations. The provider in memory is always there and is
/// the default, so that the server can serve without a search engine; a provider on
/// PostgreSQL that cannot be made is left out. For each configuration `pools` has what
/// came of connecting to its address; it counts only where a provider is wanted.
pub fn build_provider_registry<P>(
    configs: &Vec<SearchProviderConfig>,
    pools: Vec<Result<P, String>>,
) -> (registry: SearchProviderRegistry<P>)
    requires
        configs@.len() == pools@.len(),
    ensures
        registry.memory@ == "memory-default"@,
        registry.default_kind == SearchProviderKind::Memory,
        registered(registry.postgresql@) == made(configs@, pools@),
        registry.factories@ == seq![SearchProviderKind::Memory, SearchProviderKind::Postgresql],
{
    let ghost all = pools@;
    let mut postgresql: Vec<PostgresqlSearchProvider<P>> = Vec::new();
    assert(registered(postgresql@) == Seq::<(Seq<char>, P)>::empty());
    let mut i: usize = 0;
    for pool in it: pools
        invariant
            it.seq() == all,
            all.len() == configs.len(),
            i == it.index(),
            registered(postgresql@) == made(configs@.take(i as int), all.take(i as int)),
    {
        let ghost before = postgresql@;
        let config: &SearchProviderConfig = &configs[i];
        if config.enabled && config.kind == SearchProviderKind::Postgresql {
            match factory(config, pool) {
                Ok(provider) => {
                    postgresql.push(provider);
                    assert(registered(postgresql@) == registered(before).push(
                        (provider.id@, provider.pool),
                    ));
                },
                Err(_) => {},
            }
        }
        proof {
            assert(configs@.take(i + 1).drop_last() == configs@.take(i as int));
            assert(all.take(i + 1).drop_last() == all.take(i as int));
        }
        i += 1;
    }
    assert(configs@.take(configs@.len() as int) == configs@);
    assert(all.take(all.len() as int) == all);
    let factories: Vec<SearchProviderKind> = vec![
        SearchProviderKind::Memory,
        SearchProviderKind::Postgresql,
    ];
    assert(factories@ == seq![SearchProviderKind::Memory, SearchProviderKind::Postgresql]);
    SearchProviderRegistry {
        memory: "memory-default".to_owned(),
        postgresql,
        default_kind: SearchProviderKind::Memory,
        factories,
    }
}

// ---------------------------------------------------------------------------
// Laws
// ---------------------------------------------------------------------------

/// A provider on PostgreSQL that is wanted, names its address and gets a pool is
/// registered under its name.
pub proof fn lemma_made_is_registered<P>(
    configs: Seq<SearchProviderConfig>,
    pools: Seq<Result<P, String>>,
    i: int,
)
    requires
        configs.len() == pools.len(),
        0 <= i < configs.len(),
        is_made(configs[i], pools[i]),
    ensures
        made(configs, pools).contains((configs[i].id@, pools[i]->Ok_0)),
    decreases configs.len(),
{
    let before = made(configs.drop_last(), pools.drop_last());
    let wanted = (configs[i].id@, pools[i]->Ok_0);
    if i == configs.len() - 1 {
        assert(made(configs, pools)[before.len() as int] == wanted);
    } else {
        lemma_made_is_registered(configs.drop_last(), pools.drop_last(), i);
        let k = choose|k: int| 0 <= k < before.len() && before[k] == wanted;
        assert(made(configs, pools)[k] == wanted);
    }
}

/// Every provider on PostgreSQL comes from a configuration that wants it: none that is
/// switched off, of another kind, or without an address is registered.
pub proof fn lemma_registered_was_made<P>(
    configs: Seq<SearchProviderConfig>,
    pools: Seq<Result<P, String>>,
    k: int,
)
    requires
        configs.len() == pools.len(),
        0 <= k < made(configs, pools).len(),
    ensures
        exists|i: int|
            0 <= i < configs.len() && is_made(#[trigger] configs[i], pools[i]) && made(
                configs,
                pools,
            )[k] == (configs[i].id@, pools[i]->Ok_0),
    decreases configs.len(),
{
    let before = made(configs.drop_last(), pools.drop_last());
    if k < before.len() {
        lemma_registered_was_made(configs.drop_last(), pools.drop_last(), k);
        let i = choose|i: int|
            0 <= i < configs.len() - 1 && is_made(
                #[trigger] configs.drop_last()[i],
                pools.drop_last()[i],
            ) && before[k] == (configs.drop_last()[i].id@, pools.drop_last()[i]->Ok_0);
        assert(configs[i] == configs.drop_last()[i]);
    } else {
        assert(is_made(configs[configs.len() - 1], pools[configs.len() - 1]));
    }
}

/// A provider is made of a configuration just where that is switched on, is of the kind
/// PostgreSQL, names the address of its database by a text, and connecting gave a pool.
pub proof fn lemma_when_a_provider_is_made<P>(
    config: SearchProviderConfig,
    pool: Result<P, String>,
    address: Seq<char>,
)
    ensures
        is_made(config, pool) <==> config.enabled && config.kind is Postgresql && pool is Ok
            && json(config.connection) is Object && json(config.connection)->Object_0.contains_key(
            "url"@,
        ) && json(config.connection)->Object_0["url"@] is Text,
        configured_url(config) == Some(address) <==> json(config.connection) is Object && json(
            config.connection,
        )->Object_0.contains_key("url"@) && json(config.connection)->Object_0["url"@] == Json::Text(
            address,
        ),
{
}

proof fn lemma_made_by_prefix<P>(
    configs: Seq<SearchProviderConfig>,
    pools: Seq<Result<P, String>>,
    config: SearchProviderConfig,
    pool: Result<P, String>,
)
    requires
        configs.len() == pools.len(),
    ensures
        made(configs.push(config), pools.push(pool)) == if is_made(config, pool) {
            made(configs, pools).push((config.id@, pool->Ok_0))
        } else {
            made(configs, pools)
        },
{
    assert(configs.push(config).drop_last() =~= configs);
    assert(pools.push(pool).drop_last() =~= pools);
}

/// One more configuration that is switched on, of the kind PostgreSQL, with an address and a
/// pool is one more provider, behind those before, under its name and on its pool. Any other
/// configuration changes nothing.
pub proof fn lemma_one_more_provider<P>(
    a: Seq<PostgresqlSearchProvider<P>>,
    b: Seq<PostgresqlSearchProvider<P>>,
    configs: Seq<SearchProviderConfig>,
    pools: Seq<Result<P, String>>,
    config: SearchProviderConfig,
    pool: Result<P, String>,
)
    requires
        configs.len() == pools.len(),
        registered(a) == made(configs, pools),
        registered(b) == made(configs.push(config), pools.push(pool)),
    ensures
        config.enabled && config.kind is Postgresql && configured_url(config) is Some && pool is Ok
            ==> b.len() == a.len() + 1 && b[a.len() as int].id@ == config.id@
            && b[a.len() as int].pool == pool->Ok_0,
        !config.enabled || !(config.kind is Postgresql) || configured_url(config) is None
            || pool is Err ==> b.len() == a.len(),
        forall|i: int|
            0 <= i < a.len() ==> (#[trigger] a[i]).id@ == b[i].id@ && a[i].pool == b[i].pool,
{
    lemma_made_by_prefix(configs, pools, config, pool);
    assert(registered(a).len() == a.len());
    assert(registered(b).len() == b.len());
    assert forall|i: int| 0 <= i < a.len() implies (#[trigger] a[i]).id@ == b[i].id@ && a[i].pool
        == b[i].pool by {
        assert(registered(a)[i] == (a[i].id@, a[i].pool));
        assert(registered(b)[i] == (b[i].id@, b[i].pool));
        assert(registered(b)[i] == registered(a)[i]);
    }
    if is_made(config, pool) {
        let i = a.len() as int;
        assert(registered(b)[i] == (b[i].id@, b[i].pool));
    }
}

/// Without configurations there is no provider on PostgreSQL.
pub proof fn lemma_no_configuration_no_provider<P>(providers: Seq<PostgresqlSearchProvider<P>>)
    requires
        registered(providers) == made(
            Seq::<SearchProviderConfig>::empty(),
            Seq::<Result<P, String>>::empty(),
        ),
    ensures
        providers.len() == 0,
{
    assert(registered(providers).len() == providers.len());
}

/// A provider is wanted where it is switched on and of the kind PostgreSQL.
pub proof fn lemma_when_a_provider_is_wanted(config: SearchProviderConfig)
    ensures
        is_wanted(config) <==> config.enabled && config.kind is Postgresql,
{
}

} // verus!
