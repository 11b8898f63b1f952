//! Service settings, and where they are read from.

use vstd::prelude::*;
use crate::opt_view;

verus! {

/// The whole configuration of the service.
pub struct Settings {
    pub server: Server,
    pub database: Database,
}

/// Where the HTTP server listens, and its TLS mode.
pub struct Server {
    pub host: String,
    pub port: u16,
    pub ssl_mode: SslMode,
}

/// Where the database is, and the name of the service's database.
pub struct Database {
    pub url: String,
    pub database_name: String,
}

/// TLS modes of a database connection.
#[derive(Clone, Copy, Debug, PartialEq, Eq, Structural)]
pub enum SslMode {
    Disable,
    Allow,
    Prefer,
    Require,
    VerifyCa,
    VerifyFull,
}

/// One source of configuration, merged in the order given.
pub enum ConfigSource {
    /// A configuration file, named without its extension; a missing optional file
    /// is skipped.
    File { name: String, required: bool },
    /// Environment variables that start with `prefix`.
    Environment { prefix: String },
}

/// A configuration source by its characters.
pub open spec fn source_view(s: ConfigSource) -> (Seq<char>, bool, bool) {
    match s {
        ConfigSource::File { name, required } => (name@, required, false),
        ConfigSource::Environment { prefix } => (prefix@, false, true),
    }
}

/// The run mode: the one given, else `development`.
pub open spec fn run_mode_or_default(run_mode: Option<Seq<char>>) -> Seq<char> {
    match run_mode {
        Some(m) => m,
        None => "development"@,
    }
}

/// The configuration sources for a run mode, in merge order: the required default
/// file, the optional file of the run mode, the optional local file, then the
/// environment variables prefixed `APP`. Each entry is (name or prefix, required,
/// is environment).
pub open spec fn config_sources_spec(run_mode: Option<Seq<char>>) -> Seq<(Seq<char>, bool, bool)> {
    seq![
        ("src/config/default"@, true, false),
        ("src/config/"@ + run_mode_or_default(run_mode), false, false),
        ("src/config/local"@, false, false),
        ("APP"@, false, true),
    ]
}

/// For every run mode, given or not, the sources come in the same fixed order: the
/// required default file first, the optional file of the run mode (the given one,
/// else `development`) second, the optional local file third, and the environment
/// variables prefixed `APP` last. The default file is the only required source.
pub proof fn lemma_config_source_order(run_mode: Option<Seq<char>>)
    ensures
        config_sources_spec(run_mode).len() == 4,
        config_sources_spec(run_mode)[0] == ("src/config/default"@, true, false),
        config_sources_spec(run_mode)[1] == (
            "src/config/"@ + (match run_mode {
                Some(m) => m,
                None => "development"@,
            }),
            false,
            false,
        ),
        config_sources_spec(run_mode)[2] == ("src/config/local"@, false, false),
        config_sources_spec(run_mode)[3] == ("APP"@, false, true),
        forall|i: int|
            0 <= i < config_sources_spec(run_mode).len() ==> (#[trigger] config_sources_spec(
                run_mode,
            )[i].1 <==> i == 0),
{
}

/// The configuration sources, in merge order, for the run mode read from the
/// environment (`None` where it is not set).
pub fn config_sources(run_mode: Option<String>) -> (r: Vec<ConfigSource>)
    ensures
        r@.map_values(|s: ConfigSource| source_view(s)) == config_sources_spec(opt_view(run_mode)),
{
    let ghost v = opt_view(run_mode);
    let mode = match run_mode {
        Some(m) => m,
        None => String::from_str("development"),
    };
    let mut r: Vec<ConfigSource> = Vec::new();
    r.push(ConfigSource::File { name: String::from_str("src/config/default"), required: true });
    r.push(
        ConfigSource::File {
            name: String::from_str("src/config/").concat(mode.as_str()),
            required: false,
        },
    );
    r.push(ConfigSource::File { name: String::from_str("src/config/local"), required: false });
    r.push(ConfigSource::Environment { prefix: String::from_str("APP") });
    assert(r@.map_values(|s: ConfigSource| source_view(s)) =~= config_sources_spec(v));
    r
}

} // verus!
