//! The one-shot configuration loader: a fixed-path TOML document parsed into
//! `AppConf`, one home-directory substitution, and a read-only, process-wide
//! singleton installed exactly once at startup.

use vstd::prelude::*;
use vstd::string::StringExecFns;
use crate::logger::Logger;
use crate::logger::clean_line;
use crate::logger::logged;
use crate::logger::record_spec;
use crate::text::contains_seq;
use crate::text::contains_str;
use crate::text::lemma_replace_prefix;
use crate::text::occurs_at;
use crate::text::replace_all;
use crate::text::replace_seq;

verus! {

/// One named bridge configuration: a declared shape only, with no loading
/// or lifecycle logic yet.
pub struct Config {
    pub filepath: String,
    pub token: bool,
    pub uri: String,
    pub active: bool,
}

/// The collection of bridge configurations: a declared shape only.
pub struct Wgbc {
    pub confs: Vec<Config>,
}

/// The application configuration: schema version, log file path, and the
/// user configuration path. After loading, `user_conf` never holds the
/// unresolved home-directory placeholder.
pub struct AppConf {
    pub version: String,
    pub log_path: String,
    pub user_conf: String,
}

/// Why loading or using the configuration failed: the document could not be
/// read, it did not parse into the expected shape, the home variable was
/// absent when the placeholder needed it, or the singleton was misused.
#[derive(Debug)]
pub enum ConfError {
    Read(String),
    Parse(String),
    MissingHomeVar,
    NotInitialized,
    AlreadyInitialized,
}

impl ConfError {
    /// The spec-level text of `text`.
    pub open spec fn text_spec(&self) -> Seq<char> {
        match self {
            ConfError::Read(m) => m@,
            ConfError::Parse(m) => m@,
            ConfError::MissingHomeVar => "environment variable not found"@,
            ConfError::NotInitialized => "configuration not initialized"@,
            ConfError::AlreadyInitialized => "configuration already initialized"@,
        }
    }

    /// The error's descriptive text, as the underlying causes display it.
    pub fn text(&self) -> (r: String)
        ensures
            r@ == self.text_spec(),
    {
        match self {
            ConfError::Read(m) => m.clone(),
            ConfError::Parse(m) => m.clone(),
            ConfError::MissingHomeVar => String::from_str("environment variable not found"),
            ConfError::NotInitialized => String::from_str("configuration not initialized"),
            ConfError::AlreadyInitialized => String::from_str(
                "configuration already initialized",
            ),
        }
    }
}

/// The fixed filesystem path of the application configuration document.
pub open spec fn conf_path_spec() -> Seq<char> {
    "/etc/wg-bridge/app.toml"@
}

/// The fixed path, for diagnostics and for the caller that reads the file.
pub fn conf_path() -> (r: &'static str)
    ensures
        r@ == conf_path_spec(),
{
    "/etc/wg-bridge/app.toml"
}

#[verifier::external_type_specification]
#[verifier::external_body]
#[verifier::reject_recursive_types(K)]
#[verifier::reject_recursive_types(V)]
pub struct ExTomlMap<K, V>(toml::map::Map<K, V>);

#[verifier::external_type_specification]
#[verifier::external_body]
pub struct ExTomlValue(toml::Value);

pub uninterp spec fn table_strings(t: toml::map::Map<String, toml::Value>) -> Map<
    Seq<char>,
    Seq<char>,
>;

pub uninterp spec fn toml_doc(s: Seq<char>) -> Option<Map<Seq<char>, Seq<char>>>;

/// Relies on toml's `FromStr` for `Table`: it parses exactly the well-formed
/// TOML documents, and the parsed table — here read through its string-valued
/// entries, `table_strings` — is a function of the text alone.
#[verifier::external_body]
fn parse_table(s: &str) -> (r: Result<toml::map::Map<String, toml::Value>, String>)
    ensures
        r is Ok <==> toml_doc(s@) is Some,
        r matches Ok(t) ==> table_strings(t) == toml_doc(s@)->Some_0,
{
    match s.parse::<toml::Table>() {
        Ok(t) => Ok(t),
        Err(e) => Err(e.to_string()),
    }
}

/// Relies on toml's `Map::get` and `Value::as_str`: the entry for `key`,
/// when the table has one and it holds a string.
#[verifier::external_body]
fn table_get_str(t: &toml::map::Map<String, toml::Value>, key: &str) -> (r: Option<String>)
    ensures
        r is Some <==> table_strings(*t).contains_key(key@),
        r matches Some(v) ==> v@ == table_strings(*t)[key@],
{
    match t.get(key) {
        Some(v) => match v.as_str() {
            Some(s) => Some(s.to_string()),
            None => None,
        },
        None => None,
    }
}

/// The first of the three required string fields that the document lacks.
pub open spec fn first_missing(d: Map<Seq<char>, Seq<char>>) -> Option<Seq<char>> {
    if !d.contains_key("version"@) {
        Some("version"@)
    } else if !d.contains_key("log_path"@) {
        Some("log_path"@)
    } else if !d.contains_key("user_conf"@) {
        Some("user_conf"@)
    } else {
        None
    }
}

/// The diagnostic for a document that could not be read.
pub open spec fn msg_read_fail(err: Seq<char>) -> Seq<char> {
    "Failed to read config file "@ + conf_path_spec() + ": "@ + err
}

/// The diagnostic for a document that could not be parsed.
pub open spec fn msg_parse_fail(err: Seq<char>) -> Seq<char> {
    "Failed to parse the config file "@ + conf_path_spec() + ": "@ + err
}

/// The diagnostic for a startup that could not load its configuration.
pub open spec fn msg_load_fail(err: Seq<char>) -> Seq<char> {
    "Failed to load configuration: "@ + err
}

/// The parse diagnostic for a required field the document lacks.
pub open spec fn msg_missing_field(field: Seq<char>) -> Seq<char> {
    "missing field `"@ + field + "`"@
}

/// Law: the diagnostic for a failed read names the configuration path.
pub proof fn lemma_read_diag_names_path(err: Seq<char>)
    ensures
        contains_seq(msg_read_fail(err), conf_path_spec()),
{
    let pre = "Failed to read config file "@;
    assert(msg_read_fail(err).subrange(
        pre.len() as int,
        pre.len() + conf_path_spec().len() as int,
    ) =~= conf_path_spec());
    assert(occurs_at(msg_read_fail(err), conf_path_spec(), pre.len() as int));
}

/// Substitutes the home-directory placeholder in the user configuration
/// path; the home value is consulted exactly when the placeholder occurs.
pub fn substitute_home(user_conf: &str, home: Option<&str>) -> (r: Result<String, ConfError>)
    ensures
        !contains_seq(user_conf@, "$HOME"@) ==> (r matches Ok(u) && u@ == user_conf@),
        contains_seq(user_conf@, "$HOME"@) && home is None ==> r == Err::<String, ConfError>(
            ConfError::MissingHomeVar,
        ),
        contains_seq(user_conf@, "$HOME"@) && home is Some ==> (r matches Ok(u) && u@
            == replace_seq(user_conf@, "$HOME"@, home->Some_0@)),
{
    proof {
        reveal_strlit("$HOME");
    }
    if contains_str(user_conf, "$HOME") {
        match home {
            Some(h) => Ok(replace_all(user_conf, "$HOME", h)),
            None => Err(ConfError::MissingHomeVar),
        }
    } else {
        Ok(String::from_str(user_conf))
    }
}

/// Law: a `user_conf` of the form `"$HOME" + suffix`, with no further
/// placeholder in `suffix`, is substituted to the home directory followed
/// by `suffix`.
pub proof fn lemma_home_substitution(suffix: Seq<char>, home: Seq<char>)
    requires
        !contains_seq(suffix, "$HOME"@),
    ensures
        replace_seq("$HOME"@ + suffix, "$HOME"@, home) == home + suffix,
{
    reveal_strlit("$HOME");
    lemma_replace_prefix("$HOME"@, suffix, home);
}

/// The inputs on which loading succeeds: the document was read, it parses,
/// the three string fields are present, and the home directory is known
/// whenever `user_conf` holds the placeholder.
pub open spec fn load_ok(content: Result<String, String>, home: Option<String>) -> bool {
    &&& content is Ok
    &&& toml_doc(content->Ok_0@) is Some
    &&& first_missing(toml_doc(content->Ok_0@)->Some_0) is None
    &&& (contains_seq(toml_doc(content->Ok_0@)->Some_0["user_conf"@], "$HOME"@) ==> home is Some)
}

/// The fields a successfully loaded configuration owes: `version` and
/// `log_path` verbatim from the document, and `user_conf` verbatim unless
/// the placeholder occurred, in which case it is substituted.
pub open spec fn loaded_fields_ok(
    content: Result<String, String>,
    home: Option<String>,
    c: AppConf,
) -> bool {
    let d = toml_doc(content->Ok_0@)->Some_0;
    let uc = d["user_conf"@];
    &&& c.version@ == d["version"@]
    &&& c.log_path@ == d["log_path"@]
    &&& c.user_conf@ == if contains_seq(uc, "$HOME"@) {
        replace_seq(uc, "$HOME"@, home->Some_0@)
    } else {
        uc
    }
}

/// The error `load_app_conf` owes for inputs on which it fails.
pub open spec fn load_error_matches(
    content: Result<String, String>,
    home: Option<String>,
    e: ConfError,
) -> bool {
    if content is Err {
        e == ConfError::Read(content->Err_0)
    } else if toml_doc(content->Ok_0@) is None {
        e is Parse
    } else if first_missing(toml_doc(content->Ok_0@)->Some_0) is Some {
        e matches ConfError::Parse(m) && m@ == msg_missing_field(
            first_missing(toml_doc(content->Ok_0@)->Some_0)->Some_0,
        )
    } else {
        e == ConfError::MissingHomeVar
    }
}

/// Builds the missing-field error and logs it as a parse failure.
fn missing_field_err(log: &mut Logger, field: &str) -> (r: Result<AppConf, ConfError>)
    ensures
        r matches Err(e) && e matches ConfError::Parse(m) && m@ == msg_missing_field(field@),
        logged(
            old(log).history(),
            final(log).history(),
            "ERROR"@,
            msg_parse_fail(msg_missing_field(field@)),
        ),
{
    let mut m = String::from_str("missing field `");
    m.append(field);
    m.append("`");
    let mut diag = String::from_str("Failed to parse the config file ");
    diag.append(conf_path());
    diag.append(": ");
    diag.append(m.as_str());
    log.error(diag.as_str());
    Err(ConfError::Parse(m))
}

/// Holds the configuration singleton: empty until `init`, read-only after.
pub struct ConfRegistry {
    slot: Option<AppConf>,
}

impl ConfRegistry {
    /// Whether `init` has installed the configuration.
    pub closed spec fn is_initialized(&self) -> bool {
        self.slot is Some
    }

    /// The installed configuration, once `init` has run.
    pub closed spec fn stored(&self) -> AppConf {
        self.slot->Some_0
    }

    /// A fresh, uninitialized registry.
    pub fn new() -> (r: ConfRegistry)
        ensures
            !r.is_initialized(),
    {
        ConfRegistry { slot: None }
    }
}

impl AppConf {
    /// Loads the configuration from the outcome of reading the document at
    /// the fixed path (`content`) and the home directory (`home`): parses
    /// the three string fields and substitutes the home-directory
    /// placeholder in `user_conf`. Read and parse failures are logged
    /// through `log` with the path named; the environment failure is left
    /// for the caller to report.
    pub fn load_app_conf(
        log: &mut Logger,
        content: Result<String, String>,
        home: Option<String>,
    ) -> (r: Result<AppConf, ConfError>)
        ensures
            r is Ok <==> load_ok(content, home),
            r matches Ok(c) ==> loaded_fields_ok(content, home, c) && final(log).history() == old(
                log,
            ).history(),
            r matches Err(e) ==> load_error_matches(content, home, e),
            content is Err ==> logged(
                old(log).history(),
                final(log).history(),
                "ERROR"@,
                msg_read_fail(content->Err_0@),
            ),
            content is Ok && toml_doc(content->Ok_0@) is None ==> (r matches Err(
                ConfError::Parse(m),
            ) && logged(old(log).history(), final(log).history(), "ERROR"@, msg_parse_fail(m@))),
            content is Ok && toml_doc(content->Ok_0@) is Some && first_missing(
                toml_doc(content->Ok_0@)->Some_0,
            ) is Some ==> logged(
                old(log).history(),
                final(log).history(),
                "ERROR"@,
                msg_parse_fail(
                    msg_missing_field(first_missing(toml_doc(content->Ok_0@)->Some_0)->Some_0),
                ),
            ),
            content is Ok && toml_doc(content->Ok_0@) is Some && first_missing(
                toml_doc(content->Ok_0@)->Some_0,
            ) is None && !load_ok(content, home) ==> final(log).history() == old(log).history(),
    {
        let content_str = match content {
            Ok(c) => c,
            Err(e) => {
                let mut diag = String::from_str("Failed to read config file ");
                diag.append(conf_path());
                diag.append(": ");
                diag.append(e.as_str());
                log.error(diag.as_str());
                return Err(ConfError::Read(e));
            },
        };
        let table = match parse_table(content_str.as_str()) {
            Ok(t) => t,
            Err(e) => {
                let mut diag = String::from_str("Failed to parse the config file ");
                diag.append(conf_path());
                diag.append(": ");
                diag.append(e.as_str());
                log.error(diag.as_str());
                return Err(ConfError::Parse(e));
            },
        };
        let version = match table_get_str(&table, "version") {
            Some(v) => v,
            None => {
                return missing_field_err(log, "version");
            },
        };
        let log_path = match table_get_str(&table, "log_path") {
            Some(v) => v,
            None => {
                return missing_field_err(log, "log_path");
            },
        };
        let user_conf_raw = match table_get_str(&table, "user_conf") {
            Some(v) => v,
            None => {
                return missing_field_err(log, "user_conf");
            },
        };
        let home_ref: Option<&str> = match &home {
            Some(h) => Some(h.as_str()),
            None => None,
        };
        let user_conf = match substitute_home(user_conf_raw.as_str(), home_ref) {
            Ok(u) => u,
            Err(e) => {
                return Err(e);
            },
        };
        Ok(AppConf { version, log_path, user_conf })
    }

    /// Loads the configuration and installs it as the read-only singleton.
    /// A load failure is logged and handed back for the caller to terminate
    /// the process with a non-zero status; nothing is installed then. A
    /// second call after a success fails and keeps the first configuration.
    pub fn init(
        reg: &mut ConfRegistry,
        log: &mut Logger,
        content: Result<String, String>,
        home: Option<String>,
    ) -> (r: Result<(), ConfError>)
        ensures
            r is Ok <==> load_ok(content, home) && !old(reg).is_initialized(),
            r is Ok ==> final(reg).is_initialized() && loaded_fields_ok(
                content,
                home,
                final(reg).stored(),
            ) && logged(
                old(log).history(),
                final(log).history(),
                "DEBUG"@,
                "Configuration loaded successfully"@,
            ),
            !(r is Ok) ==> *final(reg) == *old(reg),
            load_ok(content, home) && old(reg).is_initialized() ==> r == Err::<(), ConfError>(
                ConfError::AlreadyInitialized,
            ) && final(log).history() == old(log).history(),
            !load_ok(content, home) ==> (r matches Err(e) && load_error_matches(content, home, e)
                && last_logged_error(final(log).history(), msg_load_fail(e.text_spec()))),
    {
        match Self::load_app_conf(log, content, home) {
            Ok(config) => {
                if reg.slot.is_some() {
                    return Err(ConfError::AlreadyInitialized);
                }
                reg.slot = Some(config);
                log.debug("Configuration loaded successfully");
                Ok(())
            },
            Err(err) => {
                let mut diag = String::from_str("Failed to load configuration: ");
                let t = err.text();
                diag.append(t.as_str());
                log.error(diag.as_str());
                Err(err)
            },
        }
    }

    /// Returns the installed configuration; before `init` it reports
    /// `NotInitialized` and never yields a default value.
    pub fn get(reg: &ConfRegistry) -> (r: Result<&AppConf, ConfError>)
        ensures
            r is Ok <==> reg.is_initialized(),
            !reg.is_initialized() ==> r is Err && r->Err_0 is NotInitialized,
            r matches Ok(c) ==> *c == reg.stored(),
    {
        match &reg.slot {
            Some(c) => Ok(c),
            None => Err(ConfError::NotInitialized),
        }
    }
}

/// The newest record of the history is an ERROR record carrying `msg`.
pub open spec fn last_logged_error(hist: Seq<Seq<char>>, msg: Seq<char>) -> bool {
    hist.len() >= 1 && exists|ts: Seq<char>|
        clean_line(ts) && hist.last() == record_spec(ts, "ERROR"@, msg)
}

} // verus!
