//! The configuration of the server.
use vstd::prelude::*;
use vstd::string::StringExecFns;

use crate::json::{json, object_value, Json};
use crate::spi::{SearchProviderConfig, SearchProviderKind};

verus! {

/// A database engine: PostgreSQL or another one.
#[derive(Debug, Clone, Copy, PartialEq, Eq, Structural)]
pub enum DatabaseEngine {
    Postgres,
    Other,
}

/// Which database the server keeps its data in.
#[derive(Debug)]
pub struct DatabaseConfig {
    pub engine: DatabaseEngine,
    pub url: String,
}

/// The configuration of the server.
#[derive(Debug)]
pub struct SearchApiServerConfig {
    /// The address to listen on.
    pub bind_addr: String,
    /// The address of the PostgreSQL database.
    pub database_url: String,
    /// The search providers to set up.
    pub provider_configs: Vec<SearchProviderConfig>,
    /// The directory that uploaded documents are kept in.
    pub upload_root_dir: String,
}

/// The text, or the one that stands for none.
pub open spec fn text_or(text: Option<String>, default: Seq<char>) -> Seq<char> {
    match text {
        Some(t) => t@,
        None => default,
    }
}

/// The provider that is there by default: in memory, switched on, with nothing to set.
pub open spec fn is_default_provider(config: SearchProviderConfig) -> bool {
    &&& config.kind == SearchProviderKind::Memory
    &&& config.id@ == "memory-default"@
    &&& config.priority == 0
    &&& config.enabled
    &&& json(config.connection) == Json::Object(Map::empty())
    &&& json(config.options) == Json::Object(Map::empty())
}

impl SearchApiServerConfig {
    /// The configuration that the environment describes: the address to listen on and
    /// the upload directory, where they are set, and the database, or why its
    /// description is not valid.
    pub fn from_env(
        bind_addr: Option<String>,
        database: Result<DatabaseConfig, String>,
        upload_root_dir: Option<String>,
    ) -> (config: Result<SearchApiServerConfig, String>)
        ensures
            match config {
                Ok(c) => {
                    &&& database is Ok
                    &&& database->Ok_0.engine == DatabaseEngine::Postgres
                    &&& c.bind_addr@ == text_or(bind_addr, "0.0.0.0:8080"@)
                    &&& c.database_url@ == database->Ok_0.url@
                    &&& c.upload_root_dir@ == text_or(upload_root_dir, "var/search-uploads"@)
                    &&& c.provider_configs@.len() == 1
                    &&& is_default_provider(c.provider_configs@[0])
                },
                Err(message) => match database {
                    Ok(d) => d.engine != DatabaseEngine::Postgres && message@
                        == "search standalone gateway authoritative persistence requires PostgreSQL"@,
                    Err(reason) => message@ == "invalid SDKWORK_DATABASE_* configuration: "@
                        + reason@,
                },
            },
    {
        let bind_addr: String = match bind_addr {
            Some(address) => address,
            None => "0.0.0.0:8080".to_owned(),
        };
        let database: DatabaseConfig = match database {
            Ok(database) => database,
            Err(reason) => {
                let mut message: String = String::from_str(
                    "invalid SDKWORK_DATABASE_* configuration: ",
                );
                message.append(reason.as_str());
                return Err(message);
            },
        };
        if database.engine != DatabaseEngine::Postgres {
            return Err(
                "search standalone gateway authoritative persistence requires PostgreSQL".to_owned(),
            );
        }
        let upload_root_dir: String = match upload_root_dir {
            Some(directory) => directory,
            None => "var/search-uploads".to_owned(),
        };
        let provider: SearchProviderConfig = SearchProviderConfig {
            kind: SearchProviderKind::Memory,
            id: "memory-default".to_owned(),
            priority: 0,
            enabled: true,
            connection: object_value(serde_json::Map::new()),
            options: object_value(serde_json::Map::new()),
        };
        Ok(
            SearchApiServerConfig {
                bind_addr,
                database_url: database.url,
                provider_configs: vec![provider],
                upload_root_dir,
            },
        )
    }
}

// ---------------------------------------------------------------------------
// Laws
// ---------------------------------------------------------------------------

/// What the environment sets is taken as it is; what it does not set has its default.
pub proof fn lemma_set_text_is_taken(text: Option<String>, default: Seq<char>)
    ensures
        text is Some ==> text_or(text, default) == text->0@,
        text is None ==> text_or(text, default) == default,
{
}

/// The provider that is there by default is in memory and switched on, comes first, and has
/// nothing set.
pub proof fn lemma_default_provider(config: SearchProviderConfig)
    requires
        is_default_provider(config),
    ensures
        config.kind is Memory,
        config.enabled,
        config.id@ == "memory-default"@,
        config.priority == 0,
        json(config.connection) is Object,
        json(config.options) is Object,
        forall|name: Seq<char>| !json(config.connection)->Object_0.contains_key(name),
        forall|name: Seq<char>| !json(config.options)->Object_0.contains_key(name),
{
}

} // verus!
