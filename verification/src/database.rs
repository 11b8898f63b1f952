//! Preparing the service's database after the first connection: which statements
//! to run for the connected backend, and where to reconnect.

use vstd::prelude::*;
use crate::opt_view;

verus! {

/// The database backends the service connects to.
#[derive(Clone, Copy, Debug, PartialEq, Eq, Structural)]
pub enum Backend {
    Sqlite,
    MySql,
    Postgres,
}

/// What to do after the first connection: run `statements` in order, then, where
/// `reconnect_url` is given, connect again there.
pub struct SetupPlan {
    pub statements: Vec<String>,
    pub reconnect_url: Option<String>,
}

/// The address of the named database on the server at `url`.
pub open spec fn database_address(url: Seq<char>, name: Seq<char>) -> Seq<char> {
    url + "/"@ + name
}

/// The statements to run for a backend: none for SQLite; create the database if it
/// does not exist for MySQL (name quoted with backticks); drop it if it exists, then
/// create it, for PostgreSQL (name quoted with double quotes).
pub open spec fn setup_statements(backend: Backend, name: Seq<char>) -> Seq<Seq<char>> {
    match backend {
        Backend::Sqlite => seq![],
        Backend::MySql => seq!["CREATE DATABASE IF NOT EXISTS `"@ + name + "`;"@],
        Backend::Postgres => seq![
            "DROP DATABASE IF EXISTS \""@ + name + "\";"@,
            "CREATE DATABASE \""@ + name + "\";"@,
        ],
    }
}

/// Where to reconnect: nowhere for SQLite, else the named database on the server.
pub open spec fn setup_reconnect(backend: Backend, url: Seq<char>, name: Seq<char>) -> Option<Seq<char>> {
    match backend {
        Backend::Sqlite => None,
        _ => Some(database_address(url, name)),
    }
}

/// The statements name exactly the database that is reconnected to: for MySQL and
/// PostgreSQL each statement quotes `name` itself, between a matching pair of quote
/// characters, and the reconnect address is the server address, `/`, and `name`.
/// SQLite runs nothing and keeps its connection.
pub proof fn lemma_statements_name_the_reconnected_database(
    backend: Backend,
    url: Seq<char>,
    name: Seq<char>,
)
    ensures
        backend == Backend::Sqlite ==> setup_statements(backend, name).len() == 0
            && setup_reconnect(backend, url, name) is None,
        backend != Backend::Sqlite ==> setup_reconnect(backend, url, name) == Some(url + "/"@ + name),
        backend != Backend::Sqlite ==> setup_statements(backend, name).len() > 0,
        forall|i: int|
            0 <= i < setup_statements(backend, name).len() ==> exists|pre: Seq<char>, post: Seq<char>|
                {
                    &&& #[trigger] setup_statements(backend, name)[i] == pre + name + post
                    &&& pre.len() > 0 && post.len() > 0
                    &&& pre.last() == post[0]
                    &&& (pre.last() == '`' || pre.last() == '"')
                },
        backend == Backend::MySql ==> setup_statements(backend, name) == seq![
            "CREATE DATABASE IF NOT EXISTS `"@ + name + "`;"@,
        ],
        backend == Backend::Postgres ==> setup_statements(backend, name) == seq![
            "DROP DATABASE IF EXISTS \""@ + name + "\";"@,
            "CREATE DATABASE \""@ + name + "\";"@,
        ],
{
    let bt = "`"@;
    let dq = "\""@;
    let my_pre = "CREATE DATABASE IF NOT EXISTS `"@;
    let my_post = "`;"@;
    let pg_drop = "DROP DATABASE IF EXISTS \""@;
    let pg_create = "CREATE DATABASE \""@;
    let pg_post = "\";"@;
    reveal_strlit("CREATE DATABASE IF NOT EXISTS `");
    reveal_strlit("`;");
    reveal_strlit("DROP DATABASE IF EXISTS \"");
    reveal_strlit("CREATE DATABASE \"");
    reveal_strlit("\";");
    assert forall|i: int|
        0 <= i < setup_statements(backend, name).len() implies exists|pre: Seq<char>, post: Seq<char>|
            {
                &&& #[trigger] setup_statements(backend, name)[i] == pre + name + post
                &&& pre.len() > 0 && post.len() > 0
                &&& pre.last() == post[0]
                &&& (pre.last() == '`' || pre.last() == '"')
            } by {
        match backend {
            Backend::Sqlite => {},
            Backend::MySql => {
                assert(setup_statements(backend, name)[i] == my_pre + name + my_post);
            },
            Backend::Postgres => {
                if i == 0 {
                    assert(setup_statements(backend, name)[i] == pg_drop + name + pg_post);
                } else {
                    assert(setup_statements(backend, name)[i] == pg_create + name + pg_post);
                }
            },
        }
    }
}

/// Strings by their characters.
pub open spec fn strings_view(v: Seq<String>) -> Seq<Seq<char>> {
    v.map_values(|s: String| s@)
}

/// What to do after connecting to `database_url` with the given backend, for the
/// service's database `db_name`.
pub fn setup_plan(backend: Backend, database_url: &str, db_name: &str) -> (r: SetupPlan)
    ensures
        strings_view(r.statements@) == setup_statements(backend, db_name@),
        opt_view(r.reconnect_url) == setup_reconnect(backend, database_url@, db_name@),
{
    let mut statements: Vec<String> = Vec::new();
    match backend {
        Backend::Sqlite => {
            assert(strings_view(statements@) =~= setup_statements(backend, db_name@));
            SetupPlan { statements, reconnect_url: None }
        },
        Backend::MySql => {
            let create = String::from_str("CREATE DATABASE IF NOT EXISTS `").concat(db_name).concat(
                "`;",
            );
            statements.push(create);
            assert(strings_view(statements@) =~= setup_statements(backend, db_name@));
            let url = String::from_str(database_url).concat("/").concat(db_name);
            SetupPlan { statements, reconnect_url: Some(url) }
        },
        Backend::Postgres => {
            let drop = String::from_str("DROP DATABASE IF EXISTS \"").concat(db_name).concat(
                "\";",
            );
            let create = String::from_str("CREATE DATABASE \"").concat(db_name).concat("\";");
            statements.push(drop);
            statements.push(create);
            assert(strings_view(statements@) =~= setup_statements(backend, db_name@));
            let url = String::from_str(database_url).concat("/").concat(db_name);
            SetupPlan { statements, reconnect_url: Some(url) }
        },
    }
}

/// The database to set up, from the environment: `DATABASE_URL`, else a local SQLite
/// file; `DB_NAME`, else `collabs-code`.
pub fn database_target(database_url: Option<String>, db_name: Option<String>) -> (r: (String, String))
    ensures
        r.0@ == (match database_url {
            Some(u) => u@,
            None => "sqlite:collabs-code.db"@,
        }),
        r.1@ == (match db_name {
            Some(n) => n@,
            None => "collabs-code"@,
        }),
{
    let url = match database_url {
        Some(u) => u,
        None => String::from_str("sqlite:collabs-code.db"),
    };
    let name = match db_name {
        Some(n) => n,
        None => String::from_str("collabs-code"),
    };
    (url, name)
}

} // verus!
