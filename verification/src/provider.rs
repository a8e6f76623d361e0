//! The PostgreSQL search provider: what it is, and how it is set up.
use vstd::prelude::*;
use vstd::string::StringExecFns;

use crate::json::{get_text_field, json, text_field};
use crate::provider_sql::{CREATE_TRIGRAM_EXTENSION, CREATE_VECTOR_EXTENSION};
use crate::spi::{
    backend_error, SearchProviderCapability, SearchProviderConfig, SearchProviderError,
    SearchProviderKind,
};

verus! {

/// A search provider on a PostgreSQL database. `P` is the connection pool.
#[derive(Debug)]
pub struct PostgresqlSearchProvider<P> {
    pub id: String,
    pub pool: P,
}

/// What the provider can do.
pub open spec fn capability_list() -> Seq<SearchProviderCapability> {
    seq![
        SearchProviderCapability::FullTextSearch,
        SearchProviderCapability::FuzzySearch,
        SearchProviderCapability::SemanticSearch,
        SearchProviderCapability::VectorSearch,
        SearchProviderCapability::FacetedSearch,
        SearchProviderCapability::Autocomplete,
        SearchProviderCapability::Highlighting,
        SearchProviderCapability::Ranking,
        SearchProviderCapability::Suggestions,
        SearchProviderCapability::Indexing,
        SearchProviderCapability::DocumentCrud,
    ]
}

impl<P> PostgresqlSearchProvider<P> {
    /// A provider with that name on that pool.
    pub fn new(id: &str, pool: P) -> (provider: PostgresqlSearchProvider<P>)
        ensures
            provider.id@ == id@,
            provider.pool == pool,
    {
        PostgresqlSearchProvider { id: id.to_owned(), pool }
    }

    /// The kind of provider.
    pub fn kind(&self) -> (kind: SearchProviderKind)
        ensures
            kind == SearchProviderKind::Postgresql,
    {
        SearchProviderKind::Postgresql
    }

    /// The name of the provider.
    pub fn id(&self) -> (id: &str)
        ensures
            id@ == self.id@,
    {
        self.id.as_str()
    }

    /// What the provider can do.
    pub fn capabilities(&self) -> (capabilities: Vec<SearchProviderCapability>)
        ensures
            capabilities@ == capability_list(),
    {
        let capabilities: Vec<SearchProviderCapability> = vec![
            SearchProviderCapability::FullTextSearch,
            SearchProviderCapability::FuzzySearch,
            SearchProviderCapability::SemanticSearch,
            SearchProviderCapability::VectorSearch,
            SearchProviderCapability::FacetedSearch,
            SearchProviderCapability::Autocomplete,
            SearchProviderCapability::Highlighting,
            SearchProviderCapability::Ranking,
            SearchProviderCapability::Suggestions,
            SearchProviderCapability::Indexing,
            SearchProviderCapability::DocumentCrud,
        ];
        assert(capabilities@ == capability_list());
        capabilities
    }
}

/// The next step in setting up the extensions.
#[derive(Debug)]
pub enum ExtensionStep {
    /// This statement is to be carried out.
    Run(&'static str),
    /// The extensions are set up, or why they are not.
    Done(Result<(), SearchProviderError>),
}

/// The next step in setting up the extensions, by what came of the statements so far.
/// Fuzzy matching comes first and has to be there: where it fails, nothing else is tried.
/// Vector search comes second and need not be there.
pub fn ensure_extensions(outcomes: &Vec<Result<(), String>>) -> (step: ExtensionStep)
    ensures
        match step {
            ExtensionStep::Run(sql) => {
                ||| outcomes@.len() == 0 && sql@ == CREATE_TRIGRAM_EXTENSION@
                ||| outcomes@.len() == 1 && outcomes@[0] is Ok && sql@ == CREATE_VECTOR_EXTENSION@
            },
            ExtensionStep::Done(Ok(_)) => outcomes@.len() >= 2 && outcomes@[0] is Ok,
            ExtensionStep::Done(Err(error)) => outcomes@.len() >= 1 && outcomes@[0] is Err
                && error is Backend && error->Backend_message@ == outcomes@[0]->Err_0@,
        },
{
    if outcomes.len() == 0 {
        return ExtensionStep::Run(CREATE_TRIGRAM_EXTENSION);
    }
    match &outcomes[0] {
        Ok(_) => if outcomes.len() == 1 {
            ExtensionStep::Run(CREATE_VECTOR_EXTENSION)
        } else {
            ExtensionStep::Done(Ok(()))
        },
        Err(message) => ExtensionStep::Done(
            Err(backend_error(message.clone())),
        ),
    }
}

/// Whether the provider is healthy: the database gives back the one that it is
/// asked for. The extensions do not count.
pub fn health(
    extensions: Result<(), SearchProviderError>,
    answer: Result<i64, String>,
) -> (healthy: Result<bool, SearchProviderError>)
    ensures
        healthy == match answer {
            Ok(n) => Ok::<bool, SearchProviderError>(n == 1),
            Err(message) => Err(SearchProviderError::Backend { message }),
        },
{
    match answer {
        Ok(n) => Ok(n == 1),
        Err(message) => Err(backend_error(message)),
    }
}

/// The address of the database that a configuration names: the field `url` of its
/// connection.
pub open spec fn configured_url(config: SearchProviderConfig) -> Option<Seq<char>> {
    text_field(json(config.connection), "url"@)
}

/// A configuration error with that message.
pub open spec fn is_configuration_error(error: SearchProviderError, message: Seq<char>) -> bool {
    error is Configuration && error->Configuration_message@ == message
}

/// The address of the database that a configuration names.
pub fn connection_url(config: &SearchProviderConfig) -> (url: Result<String, SearchProviderError>)
    ensures
        match url {
            Ok(u) => configured_url(*config) == Some(u@),
            Err(error) => configured_url(*config) is None && is_configuration_error(
                error,
                "missing connection.url for postgresql provider"@,
            ),
        },
{
    match get_text_field(&config.connection, "url") {
        Some(url) => Ok(url),
        None => Err(
            SearchProviderError::Configuration {
                message: "missing connection.url for postgresql provider".to_owned(),
            },
        ),
    }
}

/// The provider that a configuration describes. `pool` is what came of connecting
/// to the address that the configuration names, or why it failed.
pub fn factory<P>(config: &SearchProviderConfig, pool: Result<P, String>) -> (provider: Result<
    PostgresqlSearchProvider<P>,
    SearchProviderError,
>)
    ensures
        match provider {
            Ok(p) => configured_url(*config) is Some && pool == Ok::<P, String>(p.pool) && p.id@
                == config.id@,
            Err(error) => {
                ||| configured_url(*config) is None && is_configuration_error(
                    error,
                    "missing connection.url for postgresql provider"@,
                )
                ||| configured_url(*config) is Some && pool is Err && is_configuration_error(
                    error,
                    "failed to create pg pool: "@ + pool->Err_0@,
                )
            },
        },
{
    match connection_url(config) {
        Ok(_) => match pool {
            Ok(p) => Ok(PostgresqlSearchProvider::new(config.id.as_str(), p)),
            Err(reason) => {
                let mut message: String = String::from_str("failed to create pg pool: ");
                message.append(reason.as_str());
                Err(SearchProviderError::Configuration { message })
            },
        },
        Err(error) => Err(error),
    }
}

// ---------------------------------------------------------------------------
// Laws
// ---------------------------------------------------------------------------

/// The provider can do everything that a search provider can do, and names each once.
pub proof fn lemma_every_capability(capability: SearchProviderCapability)
    ensures
        capability_list().contains(capability),
        capability_list().no_duplicates(),
{
    let all = capability_list();
    match capability {
        SearchProviderCapability::FullTextSearch => {
            assert(all[0] == capability);
        },
        SearchProviderCapability::FuzzySearch => {
            assert(all[1] == capability);
        },
        SearchProviderCapability::SemanticSearch => {
            assert(all[2] == capability);
        },
        SearchProviderCapability::VectorSearch => {
            assert(all[3] == capability);
        },
        SearchProviderCapability::FacetedSearch => {
            assert(all[4] == capability);
        },
        SearchProviderCapability::Autocomplete => {
            assert(all[5] == capability);
        },
        SearchProviderCapability::Highlighting => {
            assert(all[6] == capability);
        },
        SearchProviderCapability::Ranking => {
            assert(all[7] == capability);
        },
        SearchProviderCapability::Suggestions => {
            assert(all[8] == capability);
        },
        SearchProviderCapability::Indexing => {
            assert(all[9] == capability);
        },
        SearchProviderCapability::DocumentCrud => {
            assert(all[10] == capability);
        },
    }
}

/// The address of the database is the text under `url` in the connection, and there is none
/// where that is no object, has no such field, or has one that is no text.
pub proof fn lemma_address_is_under_url(config: SearchProviderConfig)
    ensures
        !(json(config.connection) is Object) ==> configured_url(config) is None,
        json(config.connection) is Object ==> {
            let named = json(config.connection)->Object_0;
            &&& !named.contains_key("url"@) ==> configured_url(config) is None
            &&& named.contains_key("url"@) && named["url"@] is Text ==> configured_url(config)
                == Some(named["url"@]->Text_0)
            &&& named.contains_key("url"@) && !(named["url"@] is Text) ==> configured_url(
                config,
            ) is None
        },
{
}

/// A configuration error holds its message.
pub proof fn lemma_configuration_error_holds_message(error: SearchProviderError, message: Seq<char>)
    requires
        is_configuration_error(error, message),
    ensures
        error is Configuration,
        error->Configuration_message@ == message,
{
}

} // verus!
