//! The shared application state: the credential pool, the service
//! configuration, the dedicated metadata-database credential, the cached
//! federation site matrix, the main page asset, the query persistence store,
//! and the shutdown coordinator. Built once at startup and then shared — the
//! surrounding runtime guards it for concurrent handlers and performs all
//! I/O: it fetches the site matrix, reads the main page, opens database
//! connections with the retry policy of `crate::retry`, and runs the
//! metadata queries that realize the store's semantics.

use crate::federation::resolve_in_groups;
use crate::federation::resolve_url;
use crate::federation::SiteMatrix;
use crate::pool::build_default_pool;
use crate::pool::build_pool;
use crate::pool::choose_credential;
use crate::pool::flatten_pool;
use crate::pool::lemma_pool_size;
use crate::pool::repeat_cred;
use crate::pool::CredGroup;
use crate::pool::Credential;
use crate::pool::MAX_CONCURRENT_DB_CONNECTIONS;
use crate::shutdown::ShutdownState;
use crate::store::goc_next;
use crate::store::goc_records;
use crate::store::goc_result;
use crate::store::QueryStore;
use vstd::prelude::*;

verus! {

/// TCP port of the per-wiki database hosts when the configuration names
/// none.
pub const DEFAULT_WIKI_DB_PORT: u16 = 3306;

/// TCP port of the metadata ("tool") database; fixed, not taken from the
/// per-wiki port setting.
pub const TOOL_DB_PORT: u16 = 3308;

/// The service configuration: the metadata database's credential, host and
/// schema, the per-wiki database port, and optionally an explicit list of
/// credential groups for the shared pool.
pub struct Config {
    /// Username for the metadata database; also the primary credential the
    /// default pool replicates.
    pub user: String,
    /// Password belonging to `user`.
    pub password: String,
    /// Host of the metadata database.
    pub host: String,
    /// Schema (database name) of the metadata database.
    pub schema: String,
    /// TCP port of the per-wiki database hosts; absent means the default.
    pub db_port: Option<u16>,
    /// Explicit credential groups for the shared pool; absent means the
    /// primary credential is replicated a fixed number of times.
    pub mysql_groups: Option<Vec<CredGroup>>,
}

/// The shared runtime state of the service.
pub struct AppState {
    /// The shared credential pool handlers draw from; always non-empty.
    pub db_pool: Vec<Credential>,
    /// The configuration the state was built from.
    pub config: Config,
    /// The single dedicated credential for the metadata database; never
    /// drawn from the general pool.
    pub tool_db_credential: Credential,
    /// Active-thread accounting and the shutdown flag.
    pub shutdown: ShutdownState,
    /// The cached federation directory; read-only after construction.
    pub site_matrix: SiteMatrix,
    /// The main page asset, served verbatim.
    pub main_page: String,
    /// The deduplicating query-string store backed by the metadata database.
    pub query_store: QueryStore,
}

/// The credential pool a configuration calls for: each configured group
/// replicated by its effective count, or — with no group list — the primary
/// credential replicated a fixed default number of times.
pub open spec fn configured_pool(config: Config) -> Seq<Credential> {
    match config.mysql_groups {
        Some(groups) => flatten_pool(groups@),
        None => repeat_cred(
            Credential { user: config.user, password: config.password },
            (MAX_CONCURRENT_DB_CONNECTIONS - 1) as nat,
        ),
    }
}

impl AppState {
    /// State invariant: the pool is non-empty, the thread accounting is
    /// non-negative, and the query store is well-formed.
    pub open spec fn wf(self) -> bool {
        &&& self.db_pool@.len() > 0
        &&& self.shutdown.wf()
        &&& self.query_store.wf()
    }

    /// Builds the shared state from a parsed configuration, the site matrix
    /// fetched from the directory service, and the main page asset. The
    /// credential pool is populated from the configured groups — each
    /// contributing its effective connection count — or, with no group list,
    /// from the primary credential replicated the fixed default number of
    /// times; the metadata database gets its own single dedicated
    /// credential; thread accounting, shutdown flag and query store start
    /// empty.
    pub fn new_from_config(config: Config, site_matrix: SiteMatrix, main_page: String) -> (r:
        AppState)
        requires
            (config.mysql_groups matches Some(groups) ==> groups@.len() > 0),
        ensures
            r.db_pool@ == configured_pool(config),
            r.config == config,
            r.tool_db_credential == (Credential {
                user: config.user,
                password: config.password,
            }),
            r.shutdown.threads_running == 0,
            !r.shutdown.shutting_down,
            r.site_matrix == site_matrix,
            r.main_page == main_page,
            r.query_store.records@.len() == 0,
            r.query_store.next_id == 1,
            r.wf(),
    {
        let tool_db_credential = Credential {
            user: config.user.clone(),
            password: config.password.clone(),
        };
        let db_pool: Vec<Credential> = match &config.mysql_groups {
            Some(groups) => {
                proof {
                    lemma_pool_size(groups@);
                }
                build_pool(groups)
            },
            None => build_default_pool(&config.user, &config.password),
        };
        AppState {
            db_pool,
            config,
            tool_db_credential,
            shutdown: ShutdownState::new(),
            site_matrix,
            main_page,
            query_store: QueryStore::new(),
        }
    }

    /// The main page asset, served verbatim.
    pub fn get_main_page(&self) -> (r: &String)
        ensures
            *r == self.main_page,
    {
        &self.main_page
    }

    /// The server host and database name for a wiki, as a tuple: the fixed
    /// per-wiki host, and the wiki identifier with the `_p` suffix.
    pub fn db_host_and_schema_for_wiki(wiki: &String) -> (r: (String, String))
        ensures
            r.0@ == "127.0.0.1"@,
            r.1@ == wiki@ + "_p"@,
    {
        let host = "127.0.0.1".to_owned();
        let schema = wiki.clone().concat("_p");
        (host, schema)
    }

    /// The server host and database name for the metadata database, as a
    /// tuple, straight from the configuration.
    pub fn db_host_and_schema_for_tool_db(&self) -> (r: (String, String))
        ensures
            r.0@ == self.config.host@,
            r.1@ == self.config.schema@,
    {
        (self.config.host.clone(), self.config.schema.clone())
    }

    /// The TCP port of the per-wiki database hosts: the configured value, or
    /// the default where the configuration names none.
    pub fn wiki_db_port(&self) -> (r: u16)
        ensures
            r == (match self.config.db_port {
                Some(p) => p,
                None => DEFAULT_WIKI_DB_PORT,
            }),
    {
        match self.config.db_port {
            Some(p) => p,
            None => DEFAULT_WIKI_DB_PORT,
        }
    }

    /// One credential of the pool, chosen uniformly at random: the login a
    /// handler uses for its next per-wiki connection.
    pub fn get_db_mutex(&self) -> (r: &Credential)
        requires
            self.wf(),
        ensures
            exists|i: int| 0 <= i < self.db_pool@.len() && *r == self.db_pool@[i],
    {
        choose_credential(&self.db_pool)
    }

    /// Resolves a wiki identifier against the cached site matrix: the URL of
    /// the first open, public site whose database name equals the
    /// identifier, or nothing — in particular for closed or private sites
    /// and for identifiers no site carries.
    pub fn get_server_url_for_wiki(&self, wiki: &String) -> (r: Option<String>)
        ensures
            r is Some <==> resolve_in_groups(self.site_matrix.groups@, wiki@) is Some,
            (r matches Some(u) ==> resolve_in_groups(self.site_matrix.groups@, wiki@) == Some(
                u@,
            )),
    {
        resolve_url(&self.site_matrix, wiki)
    }

    /// Looks a persisted query string up by its identifier: the string of
    /// the record carrying the identifier, or nothing where no record does.
    pub fn get_query_from_psid(&self, psid: u64) -> (r: Option<String>)
        ensures
            r is Some <==> exists|k: int|
                0 <= k < self.query_store.records@.len()
                    && #[trigger] self.query_store.records@[k].id == psid,
            (r matches Some(s) ==> exists|k: int|
                0 <= k < self.query_store.records@.len()
                    && #[trigger] self.query_store.records@[k].id == psid && s@
                    == self.query_store.records@[k].querystring@),
    {
        self.query_store.lookup(psid)
    }

    /// The identifier for a query string, get-or-create: the existing
    /// identifier where the string is already stored — the store untouched —
    /// and otherwise the next free identifier, under which the string is
    /// recorded with the current timestamp. Nothing else of the state
    /// changes.
    pub fn get_or_create_psid_for_query(&mut self, query_string: &String) -> (r: Option<u64>)
        requires
            old(self).wf(),
            old(self).query_store.next_id < u64::MAX,
        ensures
            final(self).wf(),
            r == Some(
                goc_result(
                    old(self).query_store.records@,
                    old(self).query_store.next_id,
                    query_string@,
                ),
            ),
            final(self).query_store.next_id == goc_next(
                old(self).query_store.records@,
                old(self).query_store.next_id,
                query_string@,
            ),
            exists|created: String|
                final(self).query_store.records@ == goc_records(
                    old(self).query_store.records@,
                    old(self).query_store.next_id,
                    *query_string,
                    created,
                ),
            final(self).db_pool == old(self).db_pool,
            final(self).config == old(self).config,
            final(self).tool_db_credential == old(self).tool_db_credential,
            final(self).shutdown == old(self).shutdown,
            final(self).site_matrix == old(self).site_matrix,
            final(self).main_page == old(self).main_page,
    {
        let created = now_timestamp();
        let id = self.query_store.get_or_create(query_string, created);
        Some(id)
    }

    /// Applies `diff` to the active-thread count (handlers pass `1` on entry
    /// and `-1` on exit) and reports whether the process must now terminate:
    /// exactly when shutdown was requested and the count has just drained to
    /// zero, and never before. The surrounding runtime raises the fatal exit
    /// signal when `true` comes back.
    pub fn modify_threads_running(&mut self, diff: i64) -> (terminate: bool)
        requires
            old(self).wf(),
            old(self).shutdown.threads_running + diff >= 0,
            old(self).shutdown.threads_running + diff <= i64::MAX,
        ensures
            final(self).wf(),
            final(self).shutdown.threads_running == old(self).shutdown.threads_running + diff,
            final(self).shutdown.shutting_down == old(self).shutdown.shutting_down,
            terminate == old(self).shutdown.terminates_on(diff),
            final(self).db_pool == old(self).db_pool,
            final(self).config == old(self).config,
            final(self).tool_db_credential == old(self).tool_db_credential,
            final(self).site_matrix == old(self).site_matrix,
            final(self).main_page == old(self).main_page,
            final(self).query_store == old(self).query_store,
    {
        self.shutdown.modify_threads_running(diff)
    }

    /// Requests a shutdown, idempotently; the thread count is untouched.
    pub fn request_shutdown(&mut self)
        ensures
            final(self).shutdown.shutting_down,
            final(self).shutdown.threads_running == old(self).shutdown.threads_running,
            final(self).db_pool == old(self).db_pool,
            final(self).config == old(self).config,
            final(self).tool_db_credential == old(self).tool_db_credential,
            final(self).site_matrix == old(self).site_matrix,
            final(self).main_page == old(self).main_page,
            final(self).query_store == old(self).query_store,
    {
        self.shutdown.request_shutdown();
    }

    /// Whether a shutdown has been requested.
    pub fn is_shutting_down(&self) -> (r: bool)
        ensures
            r == self.shutdown.shutting_down,
    {
        self.shutdown.is_shutting_down()
    }
}

/// Relies on `chrono::Utc::now` and `chrono::DateTime::format`: renders the
/// current UTC time as the creation timestamp of a fresh query record. The
/// result depends on the clock, so nothing is claimed of it.
#[verifier::external_body]
fn now_timestamp() -> String {
    chrono::Utc::now().format("%Y-%m-%d- %H:%M:%S").to_string()
}

} // verus!
