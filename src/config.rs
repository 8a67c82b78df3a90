//! Database configuration: the settings handed to the engine when a database is opened.
use vstd::prelude::*;

use crate::error::{ConversionError, Error, STATE_SUCCESS};
use vstd::string::StringExecFns;
use crate::text::{bool_text, flag_digit, int_text, int_to_text};

verus! {

/// Access mode of the database; the engine's default is `Automatic`.
#[derive(Debug, Clone, Copy, PartialEq, Eq, Structural)]
pub enum AccessMode {
    /// Access mode `AUTOMATIC`.
    Automatic,
    /// Access mode `READ_ONLY`.
    ReadOnly,
    /// Access mode `READ_WRITE`.
    ReadWrite,
}

/// Sort order used when none is given; the engine's default is `Asc`.
#[derive(Debug, Clone, Copy, PartialEq, Eq, Structural)]
pub enum DefaultOrder {
    /// Order `ASC`.
    Asc,
    /// Order `DESC`.
    Desc,
}

/// Placement of nulls when none is given; the engine's default is `NullsFirst`.
#[derive(Debug, Clone, Copy, PartialEq, Eq, Structural)]
pub enum DefaultNullOrder {
    /// Null ordering `NULLS_FIRST`.
    NullsFirst,
    /// Null ordering `NULLS_LAST`.
    NullsLast,
}

/// The engine's name of an access mode.
pub open spec fn access_mode_name(m: AccessMode) -> Seq<char> {
    match m {
        AccessMode::Automatic => "AUTOMATIC"@,
        AccessMode::ReadOnly => "READ_ONLY"@,
        AccessMode::ReadWrite => "READ_WRITE"@,
    }
}

/// The engine's name of a default order.
pub open spec fn default_order_name(o: DefaultOrder) -> Seq<char> {
    match o {
        DefaultOrder::Asc => "ASC"@,
        DefaultOrder::Desc => "DESC"@,
    }
}

/// The engine's name of a null ordering.
pub open spec fn null_order_name(o: DefaultNullOrder) -> Seq<char> {
    match o {
        DefaultNullOrder::NullsFirst => "NULLS_FIRST"@,
        DefaultNullOrder::NullsLast => "NULLS_LAST"@,
    }
}

/// Equality of two texts, character by character.
pub fn same_text(a: &str, b: &str) -> (r: bool)
    ensures
        r == (a@ == b@),
{
    let x = a.to_owned();
    let y = b.to_owned();
    x == y
}

impl AccessMode {
    /// The engine's name of this mode.
    pub fn to_string(&self) -> (r: String)
        ensures
            r@ == access_mode_name(*self),
    {
        match self {
            AccessMode::Automatic => "AUTOMATIC".to_owned(),
            AccessMode::ReadOnly => "READ_ONLY".to_owned(),
            AccessMode::ReadWrite => "READ_WRITE".to_owned(),
        }
    }

    /// The mode whose name is `s`, if any.
    pub fn from_name(s: &str) -> (r: Option<AccessMode>)
        ensures
            forall|m: AccessMode| r == Some(m) <==> access_mode_name(m) == s@,
    {
        proof {
            reveal_strlit("AUTOMATIC");
            reveal_strlit("READ_ONLY");
            reveal_strlit("READ_WRITE");
            assert("AUTOMATIC"@[0] != "READ_ONLY"@[0]);
            assert("AUTOMATIC"@.len() != "READ_WRITE"@.len());
            assert("READ_ONLY"@.len() != "READ_WRITE"@.len());
        }
        if same_text(s, "AUTOMATIC") {
            Some(AccessMode::Automatic)
        } else if same_text(s, "READ_ONLY") {
            Some(AccessMode::ReadOnly)
        } else if same_text(s, "READ_WRITE") {
            Some(AccessMode::ReadWrite)
        } else {
            None
        }
    }
}

impl DefaultOrder {
    /// The engine's name of this order.
    pub fn to_string(&self) -> (r: String)
        ensures
            r@ == default_order_name(*self),
    {
        match self {
            DefaultOrder::Asc => "ASC".to_owned(),
            DefaultOrder::Desc => "DESC".to_owned(),
        }
    }

    /// The order whose name is `s`, if any.
    pub fn from_name(s: &str) -> (r: Option<DefaultOrder>)
        ensures
            forall|o: DefaultOrder| r == Some(o) <==> default_order_name(o) == s@,
    {
        proof {
            reveal_strlit("ASC");
            reveal_strlit("DESC");
            assert("ASC"@.len() != "DESC"@.len());
        }
        if same_text(s, "ASC") {
            Some(DefaultOrder::Asc)
        } else if same_text(s, "DESC") {
            Some(DefaultOrder::Desc)
        } else {
            None
        }
    }
}

impl DefaultNullOrder {
    /// The engine's name of this null ordering.
    pub fn to_string(&self) -> (r: String)
        ensures
            r@ == null_order_name(*self),
    {
        match self {
            DefaultNullOrder::NullsFirst => "NULLS_FIRST".to_owned(),
            DefaultNullOrder::NullsLast => "NULLS_LAST".to_owned(),
        }
    }

    /// The null ordering whose name is `s`, if any.
    pub fn from_name(s: &str) -> (r: Option<DefaultNullOrder>)
        ensures
            forall|o: DefaultNullOrder| r == Some(o) <==> null_order_name(o) == s@,
    {
        proof {
            reveal_strlit("NULLS_FIRST");
            reveal_strlit("NULLS_LAST");
            assert("NULLS_FIRST"@.len() != "NULLS_LAST"@.len());
        }
        if same_text(s, "NULLS_FIRST") {
            Some(DefaultNullOrder::NullsFirst)
        } else if same_text(s, "NULLS_LAST") {
            Some(DefaultNullOrder::NullsLast)
        } else {
            None
        }
    }
}

impl std::str::FromStr for AccessMode {
    type Err = Error;

    fn from_str(s: &str) -> Result<AccessMode, Error> {
        match AccessMode::from_name(s) {
            Some(m) => Ok(m),
            None => Err(Error::Conversion(ConversionError::Invalid(s.to_owned()))),
        }
    }
}

impl std::str::FromStr for DefaultOrder {
    type Err = Error;

    fn from_str(s: &str) -> Result<DefaultOrder, Error> {
        match DefaultOrder::from_name(s) {
            Some(o) => Ok(o),
            None => Err(Error::Conversion(ConversionError::Invalid(s.to_owned()))),
        }
    }
}

impl std::str::FromStr for DefaultNullOrder {
    type Err = Error;

    fn from_str(s: &str) -> Result<DefaultNullOrder, Error> {
        match DefaultNullOrder::from_name(s) {
            Some(o) => Ok(o),
            None => Err(Error::Conversion(ConversionError::Invalid(s.to_owned()))),
        }
    }
}

/// Key of the setting that names the calling binding; set on every open.
pub open spec fn api_key() -> Seq<char> {
    "duckdb_api"@
}

/// Value of the setting that names the calling binding.
pub open spec fn api_value() -> Seq<char> {
    "rust"@
}

/// The settings of a database, in the order they were given.
///
/// Each setting is handed to the engine's validator as it is made, and the builder is told the
/// engine's answer: an accepted setting is recorded, an unknown key or a bad value is reported
/// there and then, and the settings already recorded stay as they were.
#[derive(Debug)]
pub struct Config {
    settings: Vec<(String, String)>,
}

impl View for Config {
    type V = Seq<(Seq<char>, Seq<char>)>;

    closed spec fn view(&self) -> Seq<(Seq<char>, Seq<char>)> {
        self.settings@.map_values(|p: (String, String)| (p.0@, p.1@))
    }
}

impl Default for Config {
    fn default() -> (r: Config)
        ensures
            r@ == Seq::<(Seq<char>, Seq<char>)>::empty(),
    {
        let r = Config { settings: Vec::new() };
        assert(r@ =~= Seq::<(Seq<char>, Seq<char>)>::empty());
        r
    }
}

impl Config {
    /// An empty configuration.
    pub fn new() -> (r: Config)
        ensures
            r@ == Seq::<(Seq<char>, Seq<char>)>::empty(),
    {
        Config::default()
    }

    /// Number of settings.
    pub fn len(&self) -> (r: usize)
        ensures
            r == self@.len(),
    {
        self.settings.len()
    }

    /// Key and value of setting `i`.
    pub fn setting(&self, i: usize) -> (r: (&str, &str))
        requires
            i < self@.len(),
        ensures
            r.0@ == self@[i as int].0,
            r.1@ == self@[i as int].1,
    {
        let p = &self.settings[i];
        (p.0.as_str(), p.1.as_str())
    }

    /// Records a setting that was handed to the engine, which answered `state`: on success it
    /// is appended; otherwise the configuration is unchanged and the refusal is returned.
    pub fn set(&mut self, key: &str, value: &str, state: u32) -> (r: Result<(), Error>)
        ensures
            state == STATE_SUCCESS ==> r is Ok && final(self)@ == old(self)@.push((key@, value@)),
            state != STATE_SUCCESS ==> final(self)@ == old(self)@ && (r matches Err(e)
                && setting_error(e, key@, value@, state)),
    {
        setting_result(key, value, state)?;
        let k = key.to_owned();
        let v = value.to_owned();
        self.settings.push((k, v));
        assert(final(self)@ =~= old(self)@.push((key@, value@)));
        Ok(())
    }

    fn with_setting(self, key: &str, value: &str, state: u32) -> (r: Result<Config, Error>)
        ensures
            built(self@, r, key@, value@, state),
    {
        let mut c = self;
        c.set(key, value, state)?;
        Ok(c)
    }

    /// Sets both `autoinstall_known_extensions` and `autoload_known_extensions` to `1` or `0`;
    /// the engine answered `install_state` to the first and `load_state` to the second.
    pub fn enable_autoload_extension(self, enabled: bool, install_state: u32, load_state: u32) -> (r:
        Result<Config, Error>)
        ensures
            install_state != STATE_SUCCESS ==> (r matches Err(e) && setting_error(
                e,
                "autoinstall_known_extensions"@,
                int_text(if enabled { 1int } else { 0int }),
                install_state,
            )),
            install_state == STATE_SUCCESS ==> built(
                self@.push(("autoinstall_known_extensions"@, int_text(if enabled { 1int } else { 0int }))),
                r,
                "autoload_known_extensions"@,
                int_text(if enabled { 1int } else { 0int }),
                load_state,
            ),
    {
        let flag = flag_digit(enabled);
        let c = self.with_setting("autoinstall_known_extensions", flag.as_str(), install_state)?;
        c.with_setting("autoload_known_extensions", flag.as_str(), load_state)
    }

    /// Sets `access_mode`; the engine answered `state`.
    pub fn access_mode(self, mode: AccessMode, state: u32) -> (r: Result<Config, Error>)
        ensures
            built(self@, r, "access_mode"@, access_mode_name(mode), state),
    {
        let v = mode.to_string();
        self.with_setting("access_mode", v.as_str(), state)
    }

    /// Sets `custom_user_agent`, the caller's metadata; the engine answered `state`.
    pub fn custom_user_agent(self, custom_user_agent: &str, state: u32) -> (r: Result<Config, Error>)
        ensures
            built(self@, r, "custom_user_agent"@, custom_user_agent@, state),
    {
        self.with_setting("custom_user_agent", custom_user_agent, state)
    }

    /// Sets `default_order`; the engine answered `state`.
    pub fn default_order(self, order: DefaultOrder, state: u32) -> (r: Result<Config, Error>)
        ensures
            built(self@, r, "default_order"@, default_order_name(order), state),
    {
        let v = order.to_string();
        self.with_setting("default_order", v.as_str(), state)
    }

    /// Sets `default_null_order`; the engine answered `state`.
    pub fn default_null_order(self, null_order: DefaultNullOrder, state: u32) -> (r: Result<
        Config,
        Error,
    >)
        ensures
            built(self@, r, "default_null_order"@, null_order_name(null_order), state),
    {
        let v = null_order.to_string();
        self.with_setting("default_null_order", v.as_str(), state)
    }

    /// Sets `enable_external_access`: whether the database may reach outside state; the engine
    /// answered `state`.
    pub fn enable_external_access(self, enabled: bool, state: u32) -> (r: Result<Config, Error>)
        ensures
            built(
                self@,
                r,
                "enable_external_access"@,
                if enabled { "true"@ } else { "false"@ },
                state,
            ),
    {
        let v = bool_text(enabled);
        self.with_setting("enable_external_access", v.as_str(), state)
    }

    /// Sets `enable_object_cache`: whether metadata of external files is cached; the engine
    /// answered `state`.
    pub fn enable_object_cache(self, enabled: bool, state: u32) -> (r: Result<Config, Error>)
        ensures
            built(self@, r, "enable_object_cache"@, if enabled { "true"@ } else { "false"@ }, state),
    {
        let v = bool_text(enabled);
        self.with_setting("enable_object_cache", v.as_str(), state)
    }

    /// Sets `allow_unsigned_extensions` to `true`; the engine answered `state`.
    pub fn allow_unsigned_extensions(self, state: u32) -> (r: Result<Config, Error>)
        ensures
            built(self@, r, "allow_unsigned_extensions"@, "true"@, state),
    {
        self.with_setting("allow_unsigned_extensions", "true", state)
    }

    /// Sets `max_memory`, the memory limit of the engine (e.g. `1GB`); the engine answered
    /// `state`.
    pub fn max_memory(self, memory: &str, state: u32) -> (r: Result<Config, Error>)
        ensures
            built(self@, r, "max_memory"@, memory@, state),
    {
        self.with_setting("max_memory", memory, state)
    }

    /// Sets `threads`, the number of threads of the engine; the engine answered `state`.
    pub fn threads(self, thread_num: i64, state: u32) -> (r: Result<Config, Error>)
        ensures
            built(self@, r, "threads"@, int_text(thread_num as int), state),
    {
        let v = int_to_text(thread_num);
        self.with_setting("threads", v.as_str(), state)
    }

    /// Adds any setting; the engine answered `state`, refusing an unknown key or a bad value.
    pub fn with(self, key: &str, value: &str, state: u32) -> (r: Result<Config, Error>)
        ensures
            built(self@, r, key@, value@, state),
    {
        self.with_setting(key, value, state)
    }

    /// Sets the binding's own name, which every open carries; the engine answered `state`.
    pub fn with_api_marker(self, state: u32) -> (r: Result<Config, Error>)
        ensures
            built(self@, r, api_key(), api_value(), state),
    {
        proof {
            reveal_strlit("duckdb_api");
            reveal_strlit("rust");
        }
        self.with_setting("duckdb_api", "rust", state)
    }
}

/// Whether `e` is the engine's refusal of setting `key` to `value` with status `state`.
pub open spec fn setting_error(e: Error, key: Seq<char>, value: Seq<char>, state: u32) -> bool {
    e matches Error::EngineFailure { code, message: Some(m) } && code == state && m@ == "set "@ + key
        + ":"@ + value + " error"@
}

/// The outcome of a builder that hands one setting to the engine, which answered `state`:
/// the configuration with the setting appended, or the refusal.
pub open spec fn built(
    before: Seq<(Seq<char>, Seq<char>)>,
    r: Result<Config, Error>,
    key: Seq<char>,
    value: Seq<char>,
    state: u32,
) -> bool {
    if state == STATE_SUCCESS {
        r matches Ok(c) && c@ == before.push((key, value))
    } else {
        r matches Err(e) && setting_error(e, key, value, state)
    }
}

/// The path that opens an in-memory database.
pub open spec fn in_memory_path() -> Seq<char> {
    ":memory:"@
}

/// The path of an in-memory database.
pub fn in_memory() -> (r: &'static str)
    ensures
        r@ == in_memory_path(),
{
    ":memory:"
}

/// Checks a path's bytes before they reach the engine: `InvalidPath` when one of them is NUL.
pub fn check_path(path: &[u8]) -> (r: Result<(), Error>)
    ensures
        r is Ok <==> forall|i: int| 0 <= i < path@.len() ==> path@[i] != 0,
        r matches Err(e) ==> e == Error::InvalidPath,
{
    let mut i: usize = 0;
    while i < path.len()
        invariant
            i <= path@.len(),
            forall|j: int| 0 <= j < i ==> path@[j] != 0,
        decreases path@.len() - i,
    {
        if path[i] == 0 {
            return Err(Error::InvalidPath);
        }
        i = i + 1;
    }
    Ok(())
}

/// The outcome of handing one setting to the engine: success, or the engine's status with a
/// message naming the setting, `set <key>:<value> error`.
pub fn setting_result(key: &str, value: &str, state: u32) -> (r: Result<(), Error>)
    ensures
        state == STATE_SUCCESS ==> r is Ok,
        state != STATE_SUCCESS ==> (r matches Err(e) && setting_error(e, key@, value@, state)),
{
    if state == STATE_SUCCESS {
        return Ok(());
    }
    let mut m = "set ".to_owned();
    m.append(key);
    m.append(":");
    m.append(value);
    m.append(" error");
    Err(Error::EngineFailure { code: state, message: Some(m) })
}

} // verus!
