//! The handle on the store and the staged builder that makes it.

use crate::handlers::error_handler::Errors;
use vstd::prelude::*;

verus! {

/// The driver's connection handle. It is carried, shared and handed back;
/// nothing is read from it here.
#[verifier::external_type_specification]
#[verifier::external_body]
pub struct ExClient(mongodb::Client);

/// `Client::clone` of the driver: one more handle on the same connection.
/// Nothing is claimed of the handle it returns.
pub assume_specification[ <mongodb::Client as Clone>::clone ](
    client: &mongodb::Client,
) -> mongodb::Client
;

/// A connection URL that has been supplied.
#[derive(Clone)]
pub struct Url(String);

/// The mark of a builder that has no connection URL yet.
#[derive(Clone)]
pub struct NoUrl;

/// A database name that has been supplied.
#[derive(Clone)]
pub struct DbName(String);

/// The mark of a builder that has no database name yet.
#[derive(Clone)]
pub struct NoDbName;

impl View for Url {
    type V = Seq<char>;

    closed spec fn view(&self) -> Seq<char> {
        self.0@
    }
}

impl View for DbName {
    type V = Seq<char>;

    closed spec fn view(&self) -> Seq<char> {
        self.0@
    }
}

impl Url {
    /// Marks a connection URL as supplied.
    pub fn new(url: String) -> (r: Self)
        ensures
            r@ == url@,
    {
        Url(url)
    }

    /// The URL as text.
    pub fn as_str(&self) -> (r: &str)
        ensures
            r@ == self@,
    {
        self.0.as_str()
    }
}

impl Default for Url {
    fn default() -> (r: Self)
        ensures
            r@ == Seq::<char>::empty(),
    {
        Url(String::new())
    }
}

impl DbName {
    /// Marks a database name as supplied.
    pub fn new(db_name: String) -> (r: Self)
        ensures
            r@ == db_name@,
    {
        DbName(db_name)
    }

    /// The name as text.
    pub fn as_str(&self) -> (r: &str)
        ensures
            r@ == self@,
    {
        self.0.as_str()
    }
}

impl Default for DbName {
    fn default() -> (r: Self)
        ensures
            r@ == Seq::<char>::empty(),
    {
        DbName(String::new())
    }
}

impl Default for NoUrl {
    fn default() -> (r: Self)
        ensures
            r == NoUrl,
    {
        NoUrl
    }
}

impl Default for NoDbName {
    fn default() -> (r: Self)
        ensures
            r == NoDbName,
    {
        NoDbName
    }
}

/// The handle through which every operation on the store goes: where the
/// store is, which database is meant, and the live connection.
#[derive(Clone)]
pub struct MongoClient {
    pub url: String,
    pub db_name: String,
    pub client: mongodb::Client,
}

/// A handle in the making. The two type parameters say whether a URL and a
/// database name have been supplied; the connection is there once one has
/// been established.
#[derive(Clone)]
pub struct MongoClientBuilder<U, D> {
    pub url: U,
    pub db_name: D,
    pub client: Option<mongodb::Client>,
}

impl MongoClient {
    /// What holds of every handle that a builder made: it names a store and
    /// a database.
    pub open spec fn wf(self) -> bool {
        self.url@.len() > 0 && self.db_name@.len() > 0
    }
}

/// Whether a URL, a database name and the outcome of the attempt to
/// connect make a connection target that a handle can be built on.
pub open spec fn valid_target(
    url: Seq<char>,
    db_name: Seq<char>,
    client: Option<mongodb::Client>,
) -> bool {
    url.len() > 0 && db_name.len() > 0 && client is Some
}

impl MongoClientBuilder<NoUrl, NoDbName> {
    /// A builder that knows nothing yet.
    pub fn new() -> (r: Self)
        ensures
            r.client is None,
    {
        MongoClientBuilder { url: NoUrl, db_name: NoDbName, client: None }
    }
}

impl Default for MongoClientBuilder<NoUrl, NoDbName> {
    fn default() -> (r: Self)
        ensures
            r.client is None,
    {
        MongoClientBuilder { url: NoUrl, db_name: NoDbName, client: None }
    }
}

impl MongoClientBuilder<Url, DbName> {
    /// What holds of every builder that `url` returned: the connection is
    /// there, and neither the URL nor the database name is empty.
    pub open spec fn wf(self) -> bool {
        valid_target(self.url@, self.db_name@, self.client)
    }

    /// Records the outcome of connecting to `url`: `client` is the live
    /// connection, or nothing where none could be established. The builder
    /// is returned for a valid target; every other case is the one internal
    /// error that names no cause, so that no connection string leaks.
    pub fn url(url: Url, db_name: DbName, client: Option<mongodb::Client>) -> (r: Result<
        Self,
        Errors,
    >)
        ensures
            match r {
                Ok(builder) => valid_target(url@, db_name@, client) && builder.url@ == url@
                    && builder.db_name@ == db_name@ && builder.client == client && builder.wf(),
                Err(e) => !valid_target(url@, db_name@, client) && e.is_internal(
                    "Invalid Mongo Uri!"@,
                ),
            },
    {
        if url.as_str().is_empty() || db_name.as_str().is_empty() || client.is_none() {
            return Err(Errors::InternalError("Invalid Mongo Uri!".to_string()));
        }
        Ok(MongoClientBuilder { url, db_name, client })
    }

    /// Finishes the builder: the handle on the store.
    pub fn build(self) -> (r: Result<MongoClient, Errors>)
        requires
            self.wf(),
        ensures
            r matches Ok(handle) && handle.url@ == self.url@ && handle.db_name@ == self.db_name@
                && Some(handle.client) == self.client && handle.wf(),
    {
        Ok(MongoClient { url: self.url.0, db_name: self.db_name.0, client: self.client.unwrap() })
    }
}

/// Builds the handle from the configured URL and database name and the
/// outcome of connecting. A handle comes out for a valid target and for no
/// other: none exists without a live connection.
pub fn build_mongo_client(url: String, db_name: String, client: Option<mongodb::Client>) -> (r:
    Result<MongoClient, Errors>)
    ensures
        match r {
            Ok(handle) => valid_target(url@, db_name@, client) && handle.url@ == url@
                && handle.db_name@ == db_name@ && Some(handle.client) == client && handle.wf(),
            Err(e) => !valid_target(url@, db_name@, client) && e.is_internal("Invalid Mongo Uri!"@),
        },
{
    match MongoClientBuilder::<Url, DbName>::url(Url::new(url), DbName::new(db_name), client) {
        Ok(builder) => builder.build(),
        Err(e) => Err(e),
    }
}

} // verus!
