use vstd::prelude::*;

verus! {

// ---------------------------------------------------------------------------
// The plain model of a parsed configuration document
// ---------------------------------------------------------------------------

/// One top-level value of a parsed configuration document, reduced to
/// the plain shapes the configuration schema uses. Values of any other
/// shape (floats, datetimes, nested tables, mixed arrays) are `Other`.
#[derive(Debug)]
pub enum Item {
    Str(String),
    Int(i64),
    Bool(bool),
    StrArr(Vec<String>),
    Other,
}

/// Mathematical form of an `Item`.
pub enum ItemV {
    Str(Seq<char>),
    Int(int),
    Bool(bool),
    StrArr(Seq<Seq<char>>),
    Other,
}

impl View for Item {
    type V = ItemV;

    open spec fn view(&self) -> ItemV {
        match self {
            Item::Str(s) => ItemV::Str(s@),
            Item::Int(i) => ItemV::Int(*i as int),
            Item::Bool(b) => ItemV::Bool(*b),
            Item::StrArr(v) => ItemV::StrArr(v.deep_view()),
            Item::Other => ItemV::Other,
        }
    }
}

/// Mathematical form of a sequence of top-level entries.
pub open spec fn entries_view(e: Seq<(String, Item)>) -> Seq<(Seq<char>, ItemV)> {
    e.map_values(|p: (String, Item)| (p.0@, p.1@))
}

/// The top-level entries that parsing a text as a TOML document
/// yields, one entry per top-level key, or the parser's error text
/// where the text is not a well-formed TOML document.
pub uninterp spec fn toml_doc(s: Seq<char>) -> Result<Seq<(Seq<char>, ItemV)>, Seq<char>>;

/// Relies on `toml::from_str::<toml::Table>`: parsing a TOML document
/// is a function of the text alone, as is its error text; each
/// top-level value is reduced to the plain shape of its variant, one
/// arm per variant.
#[verifier::external_body]
fn parse_document(s: &str) -> (r: Result<Vec<(String, Item)>, String>)
    ensures
        (r is Ok) == (toml_doc(s@) is Ok),
        r matches Ok(entries) ==> entries_view(entries@) == toml_doc(s@)->Ok_0,
        r matches Err(m) ==> (toml_doc(s@) matches Err(em) && m@ == em),
{
    let t: toml::Table = match toml::from_str(s) {
        Ok(t) => t,
        Err(e) => return Err(e.to_string()),
    };
    Ok(t.into_iter().map(|(k, v)| (k, match v {
        toml::Value::String(x) => Item::Str(x),
        toml::Value::Integer(x) => Item::Int(x),
        toml::Value::Boolean(x) => Item::Bool(x),
        toml::Value::Array(a) => a.into_iter().map(
            |e| if let toml::Value::String(x) = e { Some(x) } else { None },
        ).collect::<Option<Vec<String>>>().map_or(Item::Other, Item::StrArr),
        _ => Item::Other,
    })).collect())
}

// ---------------------------------------------------------------------------
// The configuration value
// ---------------------------------------------------------------------------

/// The application configuration: a single immutable value loaded once
/// per process run, either from a configuration file or from the
/// hard-coded default.
#[derive(Clone, Debug)]
pub struct AppConfig {
    /// Domains to monitor.
    pub domains: Vec<String>,
    /// Seconds between monitoring checks.
    pub interval: u64,
    /// Host address the web server binds to.
    pub server_host: String,
    /// Port the web server binds to.
    pub server_port: u16,
    /// Whether Bale notifications are enabled.
    pub enable_bale: bool,
    /// Bale bot token.
    pub bale_token: String,
    /// Bale chat identifier.
    pub bale_chat_id: String,
    /// Username for web interface authentication.
    pub web_username: String,
    /// Password for web interface authentication.
    pub web_password: String,
    /// Path of the database file.
    pub db_path: String,
    /// Logging level name: one of error, warn, info, debug, trace.
    pub log_level: String,
}

/// Mathematical form of a configuration value.
pub struct ConfigV {
    pub domains: Seq<Seq<char>>,
    pub interval: int,
    pub server_host: Seq<char>,
    pub server_port: int,
    pub enable_bale: bool,
    pub bale_token: Seq<char>,
    pub bale_chat_id: Seq<char>,
    pub web_username: Seq<char>,
    pub web_password: Seq<char>,
    pub db_path: Seq<char>,
    pub log_level: Seq<char>,
}

impl View for AppConfig {
    type V = ConfigV;

    open spec fn view(&self) -> ConfigV {
        ConfigV {
            domains: self.domains.deep_view(),
            interval: self.interval as int,
            server_host: self.server_host@,
            server_port: self.server_port as int,
            enable_bale: self.enable_bale,
            bale_token: self.bale_token@,
            bale_chat_id: self.bale_chat_id@,
            web_username: self.web_username@,
            web_password: self.web_password@,
            db_path: self.db_path@,
            log_level: self.log_level@,
        }
    }
}

/// The hard-coded default configuration, used only when no
/// configuration file is present.
pub open spec fn default_config() -> ConfigV {
    ConfigV {
        domains: Seq::empty(),
        interval: 60,
        server_host: "127.0.0.1"@,
        server_port: 7000,
        enable_bale: false,
        bale_token: Seq::empty(),
        bale_chat_id: Seq::empty(),
        web_username: "admin"@,
        web_password: "admin"@,
        db_path: "dideban.db"@,
        log_level: "info"@,
    }
}

impl Default for AppConfig {
    /// The default configuration value.
    fn default() -> (c: AppConfig)
        ensures
            c@ == default_config(),
    {
        let c = AppConfig {
            domains: Vec::new(),
            interval: 60,
            server_host: String::from_str("127.0.0.1"),
            server_port: 7000,
            enable_bale: false,
            bale_token: String::new(),
            bale_chat_id: String::new(),
            web_username: String::from_str("admin"),
            web_password: String::from_str("admin"),
            db_path: String::from_str("dideban.db"),
            log_level: String::from_str("info"),
        };
        proof {
            assert(c.domains.deep_view() =~= Seq::<Seq<char>>::empty());
            assert(c@ == default_config());
        }
        c
    }
}

// ---------------------------------------------------------------------------
// Schema extraction
// ---------------------------------------------------------------------------

/// The value under the first entry named `k`, if any.
pub open spec fn lookup(e: Seq<(Seq<char>, ItemV)>, k: Seq<char>) -> Option<ItemV>
    decreases e.len(),
{
    if e.len() == 0 {
        None
    } else if e[0].0 == k {
        Some(e[0].1)
    } else {
        lookup(e.skip(1), k)
    }
}

proof fn lemma_lookup_prefix(e: Seq<(Seq<char>, ItemV)>, k: Seq<char>, i: int)
    requires
        0 <= i <= e.len(),
        forall|j: int| 0 <= j < i ==> e[j].0 != k,
    ensures
        lookup(e, k) == lookup(e.skip(i), k),
    decreases i,
{
    if i == 0 {
        assert(e.skip(0) =~= e);
    } else {
        assert(e[0].0 != k);
        assert(forall|j: int| 0 <= j < i - 1 ==> e.skip(1)[j] == e[j + 1]);
        lemma_lookup_prefix(e.skip(1), k, i - 1);
        assert(e.skip(1).skip(i - 1) =~= e.skip(i));
    }
}

/// Finds the first entry named `key`.
fn find<'a>(entries: &'a Vec<(String, Item)>, key: &str) -> (r: Option<&'a Item>)
    ensures
        r matches Some(it) ==> lookup(entries_view(entries@), key@) == Some(it@),
        r is None ==> lookup(entries_view(entries@), key@) is None,
{
    let k = key.to_owned();
    let ghost ev = entries_view(entries@);
    let n = entries.len();
    for i in 0..n
        invariant
            n == entries.len(),
            ev == entries_view(entries@),
            k@ == key@,
            forall|j: int| 0 <= j < i ==> ev[j].0 != key@,
    {
        if entries[i].0 == k {
            proof {
                lemma_lookup_prefix(ev, key@, i as int);
                assert(ev.skip(i as int)[0] == ev[i as int]);
            }
            return Some(&entries[i].1);
        }
    }
    proof {
        lemma_lookup_prefix(ev, key@, n as int);
        assert(ev.skip(n as int).len() == 0);
    }
    None
}

/// The schema's string fields: present with a string value.
pub open spec fn str_ok(e: Seq<(Seq<char>, ItemV)>, k: Seq<char>) -> bool {
    lookup(e, k) matches Some(ItemV::Str(_))
}

/// The string under `k`, where `str_ok` holds.
pub open spec fn str_val(e: Seq<(Seq<char>, ItemV)>, k: Seq<char>) -> Seq<char> {
    match lookup(e, k) {
        Some(ItemV::Str(s)) => s,
        _ => Seq::empty(),
    }
}

/// The schema's unsigned integer fields: present with a non-negative
/// integer value.
pub open spec fn u64_ok(e: Seq<(Seq<char>, ItemV)>, k: Seq<char>) -> bool {
    lookup(e, k) matches Some(ItemV::Int(i)) && 0 <= i
}

/// A 16-bit field additionally fits the port range.
pub open spec fn u16_ok(e: Seq<(Seq<char>, ItemV)>, k: Seq<char>) -> bool {
    lookup(e, k) matches Some(ItemV::Int(i)) && 0 <= i <= 0xffff
}

/// The integer under `k`, where it is present.
pub open spec fn int_val(e: Seq<(Seq<char>, ItemV)>, k: Seq<char>) -> int {
    match lookup(e, k) {
        Some(ItemV::Int(i)) => i,
        _ => 0,
    }
}

/// The schema's boolean fields: present with a boolean value.
pub open spec fn bool_ok(e: Seq<(Seq<char>, ItemV)>, k: Seq<char>) -> bool {
    lookup(e, k) matches Some(ItemV::Bool(_))
}

/// The boolean under `k`, where `bool_ok` holds.
pub open spec fn bool_val(e: Seq<(Seq<char>, ItemV)>, k: Seq<char>) -> bool {
    match lookup(e, k) {
        Some(ItemV::Bool(b)) => b,
        _ => false,
    }
}

/// The schema's string-array fields: present with an array of strings.
pub open spec fn arr_ok(e: Seq<(Seq<char>, ItemV)>, k: Seq<char>) -> bool {
    lookup(e, k) matches Some(ItemV::StrArr(_))
}

/// The string array under `k`, where `arr_ok` holds.
pub open spec fn arr_val(e: Seq<(Seq<char>, ItemV)>, k: Seq<char>) -> Seq<Seq<char>> {
    match lookup(e, k) {
        Some(ItemV::StrArr(v)) => v,
        _ => Seq::empty(),
    }
}

/// The message reported for a field that is absent, or present with the
/// wrong shape.
pub open spec fn field_err(e: Seq<(Seq<char>, ItemV)>, k: Seq<char>) -> Seq<char> {
    if lookup(e, k) is None {
        "missing field `"@ + k + "`"@
    } else {
        "invalid value for field `"@ + k + "`"@
    }
}

fn missing_field_msg(key: &str) -> (r: String)
    ensures
        r@ == "missing field `"@ + key@ + "`"@,
{
    let mut m = String::from_str("missing field `");
    m.append(key);
    m.append("`");
    proof {
        assert(m@ =~= "missing field `"@ + key@ + "`"@);
    }
    m
}

fn invalid_field_msg(key: &str) -> (r: String)
    ensures
        r@ == "invalid value for field `"@ + key@ + "`"@,
{
    let mut m = String::from_str("invalid value for field `");
    m.append(key);
    m.append("`");
    proof {
        assert(m@ =~= "invalid value for field `"@ + key@ + "`"@);
    }
    m
}

fn get_str(entries: &Vec<(String, Item)>, key: &str) -> (r: Result<String, String>)
    ensures
        str_ok(entries_view(entries@), key@) ==> (r matches Ok(s) && s@ == str_val(
            entries_view(entries@),
            key@,
        )),
        !str_ok(entries_view(entries@), key@) ==> (r matches Err(m) && m@ == field_err(
            entries_view(entries@),
            key@,
        )),
{
    match find(entries, key) {
        Some(Item::Str(s)) => Ok(s.clone()),
        Some(_) => Err(invalid_field_msg(key)),
        None => Err(missing_field_msg(key)),
    }
}

fn get_u64(entries: &Vec<(String, Item)>, key: &str) -> (r: Result<u64, String>)
    ensures
        u64_ok(entries_view(entries@), key@) ==> (r matches Ok(v) && v as int == int_val(
            entries_view(entries@),
            key@,
        )),
        !u64_ok(entries_view(entries@), key@) ==> (r matches Err(m) && m@ == field_err(
            entries_view(entries@),
            key@,
        )),
{
    match find(entries, key) {
        Some(Item::Int(i)) => {
            if *i >= 0 {
                Ok(*i as u64)
            } else {
                Err(invalid_field_msg(key))
            }
        },
        Some(_) => Err(invalid_field_msg(key)),
        None => Err(missing_field_msg(key)),
    }
}

fn get_u16(entries: &Vec<(String, Item)>, key: &str) -> (r: Result<u16, String>)
    ensures
        u16_ok(entries_view(entries@), key@) ==> (r matches Ok(v) && v as int == int_val(
            entries_view(entries@),
            key@,
        )),
        !u16_ok(entries_view(entries@), key@) ==> (r matches Err(m) && m@ == field_err(
            entries_view(entries@),
            key@,
        )),
{
    match find(entries, key) {
        Some(Item::Int(i)) => {
            if 0 <= *i && *i <= 0xffff {
                Ok(*i as u16)
            } else {
                Err(invalid_field_msg(key))
            }
        },
        Some(_) => Err(invalid_field_msg(key)),
        None => Err(missing_field_msg(key)),
    }
}

fn get_bool(entries: &Vec<(String, Item)>, key: &str) -> (r: Result<bool, String>)
    ensures
        bool_ok(entries_view(entries@), key@) ==> (r matches Ok(v) && v == bool_val(
            entries_view(entries@),
            key@,
        )),
        !bool_ok(entries_view(entries@), key@) ==> (r matches Err(m) && m@ == field_err(
            entries_view(entries@),
            key@,
        )),
{
    match find(entries, key) {
        Some(Item::Bool(b)) => Ok(*b),
        Some(_) => Err(invalid_field_msg(key)),
        None => Err(missing_field_msg(key)),
    }
}

fn get_str_arr(entries: &Vec<(String, Item)>, key: &str) -> (r: Result<Vec<String>, String>)
    ensures
        arr_ok(entries_view(entries@), key@) ==> (r matches Ok(v) && v.deep_view() == arr_val(
            entries_view(entries@),
            key@,
        )),
        !arr_ok(entries_view(entries@), key@) ==> (r matches Err(m) && m@ == field_err(
            entries_view(entries@),
            key@,
        )),
{
    match find(entries, key) {
        Some(Item::StrArr(v)) => {
            let c = v.clone();
            proof {
                assert forall|i: int| 0 <= i < c.len() implies c.deep_view()[i]
                    == v.deep_view()[i] by {
                    assert(cloned::<String>(v[i], c[i]));
                }
                assert(c.deep_view() =~= v.deep_view());
            }
            Ok(c)
        },
        Some(_) => Err(invalid_field_msg(key)),
        None => Err(missing_field_msg(key)),
    }
}

/// The schema: the eleven fields, each present with the right shape.
pub open spec fn schema_ok(e: Seq<(Seq<char>, ItemV)>) -> bool {
    &&& arr_ok(e, "domains"@)
    &&& u64_ok(e, "interval"@)
    &&& str_ok(e, "server_host"@)
    &&& u16_ok(e, "server_port"@)
    &&& bool_ok(e, "enable_bale"@)
    &&& str_ok(e, "bale_token"@)
    &&& str_ok(e, "bale_chat_id"@)
    &&& str_ok(e, "web_username"@)
    &&& str_ok(e, "web_password"@)
    &&& str_ok(e, "db_path"@)
    &&& str_ok(e, "log_level"@)
}

/// The message reported for a document that misses the schema: the
/// first offending field, in schema order.
pub open spec fn schema_err_msg(e: Seq<(Seq<char>, ItemV)>) -> Seq<char> {
    if !arr_ok(e, "domains"@) {
        field_err(e, "domains"@)
    } else if !u64_ok(e, "interval"@) {
        field_err(e, "interval"@)
    } else if !str_ok(e, "server_host"@) {
        field_err(e, "server_host"@)
    } else if !u16_ok(e, "server_port"@) {
        field_err(e, "server_port"@)
    } else if !bool_ok(e, "enable_bale"@) {
        field_err(e, "enable_bale"@)
    } else if !str_ok(e, "bale_token"@) {
        field_err(e, "bale_token"@)
    } else if !str_ok(e, "bale_chat_id"@) {
        field_err(e, "bale_chat_id"@)
    } else if !str_ok(e, "web_username"@) {
        field_err(e, "web_username"@)
    } else if !str_ok(e, "web_password"@) {
        field_err(e, "web_password"@)
    } else if !str_ok(e, "db_path"@) {
        field_err(e, "db_path"@)
    } else if !str_ok(e, "log_level"@) {
        field_err(e, "log_level"@)
    } else {
        Seq::empty()
    }
}

/// The configuration a schema-conforming document denotes.
pub open spec fn config_of(e: Seq<(Seq<char>, ItemV)>) -> ConfigV {
    ConfigV {
        domains: arr_val(e, "domains"@),
        interval: int_val(e, "interval"@),
        server_host: str_val(e, "server_host"@),
        server_port: int_val(e, "server_port"@),
        enable_bale: bool_val(e, "enable_bale"@),
        bale_token: str_val(e, "bale_token"@),
        bale_chat_id: str_val(e, "bale_chat_id"@),
        web_username: str_val(e, "web_username"@),
        web_password: str_val(e, "web_password"@),
        db_path: str_val(e, "db_path"@),
        log_level: str_val(e, "log_level"@),
    }
}

/// Builds a configuration from a document's top-level entries: every
/// schema field must be present with the right shape (the whole
/// document is rejected otherwise); unknown entries are ignored.
pub fn build_config(entries: &Vec<(String, Item)>) -> (r: Result<AppConfig, String>)
    ensures
        schema_ok(entries_view(entries@)) ==> (r matches Ok(c) && c@ == config_of(
            entries_view(entries@),
        )),
        !schema_ok(entries_view(entries@)) ==> (r matches Err(m) && m@ == schema_err_msg(
            entries_view(entries@),
        )),
{
    let domains = match get_str_arr(entries, "domains") {
        Ok(v) => v,
        Err(m) => return Err(m),
    };
    let interval = match get_u64(entries, "interval") {
        Ok(v) => v,
        Err(m) => return Err(m),
    };
    let server_host = match get_str(entries, "server_host") {
        Ok(v) => v,
        Err(m) => return Err(m),
    };
    let server_port = match get_u16(entries, "server_port") {
        Ok(v) => v,
        Err(m) => return Err(m),
    };
    let enable_bale = match get_bool(entries, "enable_bale") {
        Ok(v) => v,
        Err(m) => return Err(m),
    };
    let bale_token = match get_str(entries, "bale_token") {
        Ok(v) => v,
        Err(m) => return Err(m),
    };
    let bale_chat_id = match get_str(entries, "bale_chat_id") {
        Ok(v) => v,
        Err(m) => return Err(m),
    };
    let web_username = match get_str(entries, "web_username") {
        Ok(v) => v,
        Err(m) => return Err(m),
    };
    let web_password = match get_str(entries, "web_password") {
        Ok(v) => v,
        Err(m) => return Err(m),
    };
    let db_path = match get_str(entries, "db_path") {
        Ok(v) => v,
        Err(m) => return Err(m),
    };
    let log_level = match get_str(entries, "log_level") {
        Ok(v) => v,
        Err(m) => return Err(m),
    };
    Ok(
        AppConfig {
            domains,
            interval,
            server_host,
            server_port,
            enable_bale,
            bale_token,
            bale_chat_id,
            web_username,
            web_password,
            db_path,
            log_level,
        },
    )
}

proof fn lemma_lookup_at(e: Seq<(Seq<char>, ItemV)>, k: Seq<char>, i: int)
    requires
        0 <= i < e.len(),
        e[i].0 == k,
        forall|j: int| 0 <= j < i ==> e[j].0 != k,
    ensures
        lookup(e, k) == Some(e[i].1),
{
    lemma_lookup_prefix(e, k, i);
    assert(e.skip(i)[0] == e[i]);
}

/// The document entries that hold exactly a configuration's fields, in
/// schema order.
pub open spec fn entries_of(c: ConfigV) -> Seq<(Seq<char>, ItemV)> {
    seq![
        ("domains"@, ItemV::StrArr(c.domains)),
        ("interval"@, ItemV::Int(c.interval)),
        ("server_host"@, ItemV::Str(c.server_host)),
        ("server_port"@, ItemV::Int(c.server_port)),
        ("enable_bale"@, ItemV::Bool(c.enable_bale)),
        ("bale_token"@, ItemV::Str(c.bale_token)),
        ("bale_chat_id"@, ItemV::Str(c.bale_chat_id)),
        ("web_username"@, ItemV::Str(c.web_username)),
        ("web_password"@, ItemV::Str(c.web_password)),
        ("db_path"@, ItemV::Str(c.db_path)),
        ("log_level"@, ItemV::Str(c.log_level)),
    ]
}

/// Round trip at the schema level: a document holding exactly a
/// configuration's fields, one entry per field, satisfies the schema
/// and denotes that configuration, field for field.
pub proof fn lemma_schema_round_trip(c: ConfigV)
    requires
        0 <= c.interval,
        0 <= c.server_port <= 0xffff,
    ensures
        schema_ok(entries_of(c)),
        config_of(entries_of(c)) == c,
{
    reveal_strlit("domains");
    reveal_strlit("interval");
    reveal_strlit("server_host");
    reveal_strlit("server_port");
    reveal_strlit("enable_bale");
    reveal_strlit("bale_token");
    reveal_strlit("bale_chat_id");
    reveal_strlit("web_username");
    reveal_strlit("web_password");
    reveal_strlit("db_path");
    reveal_strlit("log_level");
    let e = entries_of(c);
    assert(e[0].0 == "domains"@);
    assert(e[1].0 == "interval"@);
    assert(e[2].0 == "server_host"@);
    assert(e[3].0 == "server_port"@);
    assert(e[4].0 == "enable_bale"@);
    assert(e[5].0 == "bale_token"@);
    assert(e[6].0 == "bale_chat_id"@);
    assert(e[7].0 == "web_username"@);
    assert(e[8].0 == "web_password"@);
    assert(e[9].0 == "db_path"@);
    assert(e[10].0 == "log_level"@);
    assert("server_host"@[7] == 'h' && "server_port"@[7] == 'p');
    assert("server_host"@[0] == 's' && "enable_bale"@[0] == 'e');
    assert("bale_chat_id"@[0] == 'b' && "web_username"@[0] == 'w');
    assert("web_username"@[4] == 'u' && "web_password"@[4] == 'p');
    assert("domains"@[1] == 'o' && "db_path"@[1] == 'b');
    lemma_lookup_at(e, "domains"@, 0);
    lemma_lookup_at(e, "interval"@, 1);
    lemma_lookup_at(e, "server_host"@, 2);
    lemma_lookup_at(e, "server_port"@, 3);
    lemma_lookup_at(e, "enable_bale"@, 4);
    lemma_lookup_at(e, "bale_token"@, 5);
    lemma_lookup_at(e, "bale_chat_id"@, 6);
    lemma_lookup_at(e, "web_username"@, 7);
    lemma_lookup_at(e, "web_password"@, 8);
    lemma_lookup_at(e, "db_path"@, 9);
    lemma_lookup_at(e, "log_level"@, 10);
}

// ---------------------------------------------------------------------------
// Validation
// ---------------------------------------------------------------------------

/// A semantically invalid configuration: the reason the value was
/// rejected.
#[derive(Debug)]
pub enum ValidationIssue {
    /// `log_level` is not one of the five level names; carries the
    /// offending value.
    InvalidLogLevel(String),
    /// `interval` is zero.
    ZeroInterval,
    /// `domains` is empty.
    EmptyDomains,
}

/// Mathematical form of a `ValidationIssue`.
pub enum IssueV {
    InvalidLogLevel(Seq<char>),
    ZeroInterval,
    EmptyDomains,
}

impl View for ValidationIssue {
    type V = IssueV;

    open spec fn view(&self) -> IssueV {
        match self {
            ValidationIssue::InvalidLogLevel(v) => IssueV::InvalidLogLevel(v@),
            ValidationIssue::ZeroInterval => IssueV::ZeroInterval,
            ValidationIssue::EmptyDomains => IssueV::EmptyDomains,
        }
    }
}

/// Whether `s` is one of the five severity level names.
pub open spec fn is_level_name(s: Seq<char>) -> bool {
    s == "error"@ || s == "warn"@ || s == "info"@ || s == "debug"@ || s == "trace"@
}

/// The first validation rule a configuration breaks, in the order the
/// rules are checked: log level, then interval, then domains.
pub open spec fn validation_of(c: ConfigV) -> Option<IssueV> {
    if !is_level_name(c.log_level) {
        Some(IssueV::InvalidLogLevel(c.log_level))
    } else if c.interval == 0 {
        Some(IssueV::ZeroInterval)
    } else if c.domains.len() == 0 {
        Some(IssueV::EmptyDomains)
    } else {
        None
    }
}

/// A configuration that breaks no validation rule.
pub open spec fn valid_config(c: ConfigV) -> bool {
    validation_of(c) is None
}

/// A validated configuration names one of the five severity levels, so
/// a threshold derived from it never needs a fallback.
pub proof fn lemma_valid_level_named(c: ConfigV)
    requires
        valid_config(c),
    ensures
        is_level_name(c.log_level),
{
}

fn str_eq(a: &str, b: &str) -> (r: bool)
    ensures
        r == (a@ == b@),
{
    a.to_owned() == b.to_owned()
}

/// Checks the three validation rules against a configuration.
pub fn validate(c: &AppConfig) -> (r: Result<(), ValidationIssue>)
    ensures
        r matches Err(i) ==> validation_of(c@) == Some(i@),
        r is Ok ==> valid_config(c@),
{
    let lv = c.log_level.as_str();
    let named = str_eq(lv, "error") || str_eq(lv, "warn") || str_eq(lv, "info") || str_eq(
        lv,
        "debug",
    ) || str_eq(lv, "trace");
    if !named {
        return Err(ValidationIssue::InvalidLogLevel(c.log_level.clone()));
    }
    if c.interval == 0 {
        return Err(ValidationIssue::ZeroInterval);
    }
    if c.domains.len() == 0 {
        return Err(ValidationIssue::EmptyDomains);
    }
    Ok(())
}

// ---------------------------------------------------------------------------
// Errors and resolution
// ---------------------------------------------------------------------------

/// Why configuration resolution failed.
#[derive(Debug)]
pub enum ConfigError {
    /// The OS could not name the production configuration directory.
    ConfigDir,
    /// The file exists but could not be read; carries the path and the
    /// underlying cause.
    Io(String, String),
    /// The file's text does not parse as a document of the schema;
    /// carries the detail.
    Parse(String),
    /// The value is schema-valid but breaks a validation rule.
    Validation(ValidationIssue),
}

/// Mathematical form of a `ConfigError`.
pub enum ConfigErrorV {
    ConfigDir,
    Io(Seq<char>, Seq<char>),
    Parse(Seq<char>),
    Validation(IssueV),
}

impl View for ConfigError {
    type V = ConfigErrorV;

    open spec fn view(&self) -> ConfigErrorV {
        match self {
            ConfigError::ConfigDir => ConfigErrorV::ConfigDir,
            ConfigError::Io(p, c) => ConfigErrorV::Io(p@, c@),
            ConfigError::Parse(d) => ConfigErrorV::Parse(d@),
            ConfigError::Validation(i) => ConfigErrorV::Validation(i@),
        }
    }
}

/// The message a validation issue is reported with.
pub open spec fn issue_message(i: IssueV) -> Seq<char> {
    match i {
        IssueV::InvalidLogLevel(v) => "Invalid log_level: "@ + v
            + ". Must be one of: error, warn, info, debug, trace"@,
        IssueV::ZeroInterval => "interval cannot be zero"@,
        IssueV::EmptyDomains => "domains cannot be empty"@,
    }
}

/// The message a resolution error is reported with.
pub open spec fn error_message(e: ConfigErrorV) -> Seq<char> {
    match e {
        ConfigErrorV::ConfigDir => "Could not determine config directory"@,
        ConfigErrorV::Io(p, c) => "Failed to read config file "@ + p + ": "@ + c,
        ConfigErrorV::Parse(d) => "Failed to parse config file: "@ + d,
        ConfigErrorV::Validation(i) => issue_message(i),
    }
}

impl ValidationIssue {
    /// Human-readable description, naming the offending rule.
    pub fn message(&self) -> (r: String)
        ensures
            r@ == issue_message(self@),
    {
        match self {
            ValidationIssue::InvalidLogLevel(v) => {
                let mut m = String::from_str("Invalid log_level: ");
                m.append(v.as_str());
                m.append(". Must be one of: error, warn, info, debug, trace");
                proof {
                    assert(m@ =~= issue_message(self@));
                }
                m
            },
            ValidationIssue::ZeroInterval => String::from_str("interval cannot be zero"),
            ValidationIssue::EmptyDomains => String::from_str("domains cannot be empty"),
        }
    }
}

impl ConfigError {
    /// Human-readable description, naming the stage that failed.
    pub fn message(&self) -> (r: String)
        ensures
            r@ == error_message(self@),
    {
        match self {
            ConfigError::ConfigDir => String::from_str("Could not determine config directory"),
            ConfigError::Io(p, c) => {
                let mut m = String::from_str("Failed to read config file ");
                m.append(p.as_str());
                m.append(": ");
                m.append(c.as_str());
                proof {
                    assert(m@ =~= error_message(self@));
                }
                m
            },
            ConfigError::Parse(d) => {
                let mut m = String::from_str("Failed to parse config file: ");
                m.append(d.as_str());
                proof {
                    assert(m@ =~= error_message(self@));
                }
                m
            },
            ConfigError::Validation(i) => i.message(),
        }
    }
}

/// What was found at the resolved configuration path: no file, the
/// file's text, or a file that could not be read (with its path and
/// the underlying cause).
#[derive(Debug)]
pub enum FileSource {
    Absent,
    Content(String),
    Unreadable(String, String),
}

/// Mathematical form of a `FileSource`.
pub enum FileSourceV {
    Absent,
    Content(Seq<char>),
    Unreadable(Seq<char>, Seq<char>),
}

impl View for FileSource {
    type V = FileSourceV;

    open spec fn view(&self) -> FileSourceV {
        match self {
            FileSource::Absent => FileSourceV::Absent,
            FileSource::Content(s) => FileSourceV::Content(s@),
            FileSource::Unreadable(p, c) => FileSourceV::Unreadable(p@, c@),
        }
    }
}

impl AppConfig {
    /// Resolves the configuration from what was found at the
    /// configuration path: an absent file yields the default
    /// configuration; an unreadable one fails; text is parsed against
    /// the schema and the parsed value validated.
    pub fn resolve(source: FileSource) -> (r: Result<AppConfig, ConfigError>)
        ensures
            source@ is Absent ==> (r matches Ok(c) && c@ == default_config()),
            source@ matches FileSourceV::Unreadable(p, c) ==> (r matches Err(e) && e@
                == ConfigErrorV::Io(p, c)),
            source@ matches FileSourceV::Content(s) ==> toml_doc(s) matches Err(em) ==> (r
                matches Err(e) && e@ == ConfigErrorV::Parse(em)),
            source@ matches FileSourceV::Content(s) ==> toml_doc(s) matches Ok(en) ==> !schema_ok(
                en,
            ) ==> (r matches Err(e) && e@ == ConfigErrorV::Parse(schema_err_msg(en))),
            source@ matches FileSourceV::Content(s) ==> toml_doc(s) matches Ok(en) ==> (schema_ok(
                en,
            ) && validation_of(config_of(en)) is Some) ==> (r matches Err(e) && e@
                == ConfigErrorV::Validation(validation_of(config_of(en)).unwrap())),
            source@ matches FileSourceV::Content(s) ==> toml_doc(s) matches Ok(en) ==> (schema_ok(
                en,
            ) && valid_config(config_of(en))) ==> (r matches Ok(c) && c@ == config_of(en)),
            r matches Ok(c) ==> (c@ == default_config() || valid_config(c@)),
    {
        match source {
            FileSource::Absent => Ok(AppConfig::default()),
            FileSource::Unreadable(p, c) => Err(ConfigError::Io(p, c)),
            FileSource::Content(text) => {
                let entries = match parse_document(text.as_str()) {
                    Ok(en) => en,
                    Err(m) => return Err(ConfigError::Parse(m)),
                };
                let config = match build_config(&entries) {
                    Ok(c) => c,
                    Err(m) => return Err(ConfigError::Parse(m)),
                };
                match validate(&config) {
                    Ok(()) => Ok(config),
                    Err(i) => Err(ConfigError::Validation(i)),
                }
            },
        }
    }
}

// ---------------------------------------------------------------------------
// Path selection
// ---------------------------------------------------------------------------

/// The deployment profile that selects where the configuration file
/// lives.
#[derive(Clone, Copy, PartialEq, Eq, Structural, Debug)]
pub enum Profile {
    /// The file is `config.toml` in the working directory.
    Development,
    /// The file is `config.toml` in the OS configuration directory for
    /// the application.
    Production,
}

/// Relies on `directories::ProjectDirs::from` with the application
/// identifier (com, dideban, dideban): the OS configuration directory
/// for the application, or `None` where the OS names none. The value
/// depends on the environment, so nothing more is claimed.
#[verifier::external_body]
fn os_config_dir() -> Option<String> {
    directories::ProjectDirs::from("com", "dideban", "dideban").map(
        |d| d.config_dir().to_string_lossy().into_owned(),
    )
}

/// The configuration path for a profile, given the OS configuration
/// directory where the profile needs one.
pub fn config_path(profile: Profile, config_dir: Option<&str>) -> (r: Result<String, ConfigError>)
    ensures
        profile is Development ==> (r matches Ok(p) && p@ == "config.toml"@),
        (profile is Production && config_dir is Some) ==> (r matches Ok(p) && p@
            == config_dir.unwrap()@ + "/config.toml"@),
        (profile is Production && config_dir is None) ==> (r matches Err(e) && e@
            == ConfigErrorV::ConfigDir),
{
    match profile {
        Profile::Development => Ok(String::from_str("config.toml")),
        Profile::Production => match config_dir {
            Some(d) => {
                let mut p = d.to_owned();
                p.append("/config.toml");
                Ok(p)
            },
            None => Err(ConfigError::ConfigDir),
        },
    }
}

/// The configuration path for a profile, asking the OS for the
/// configuration directory where the profile needs one. Fails only in
/// the production profile, and there only where the OS names no
/// directory.
pub fn locate_config(profile: Profile) -> (r: Result<String, ConfigError>)
    ensures
        profile is Development ==> (r matches Ok(p) && p@ == "config.toml"@),
        (profile is Production && r is Ok) ==> exists|d: Seq<char>|
            r.unwrap()@ == d + "/config.toml"@,
        r matches Err(e) ==> (e@ == ConfigErrorV::ConfigDir && profile is Production),
{
    match profile {
        Profile::Development => config_path(profile, None),
        Profile::Production => match os_config_dir() {
            Some(d) => {
                let r = config_path(profile, Some(d.as_str()));
                proof {
                    assert(r.unwrap()@ == d@ + "/config.toml"@);
                }
                r
            },
            None => config_path(profile, None),
        },
    }
}

} // verus!
