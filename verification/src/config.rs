//! In-memory model of the persisted remote-mode state.
//!
//! The real state lives outside the process: a config record, a lock file
//! whose mere existence means "remote mode is on", and a set of disabled
//! session ids.  The binary around the library reads those into a
//! [`ConfigManager`] snapshot, lets the verified logic read and mutate the
//! snapshot, and writes the result back.  Concurrent invocations follow a
//! last-writer-wins policy: reads may be briefly stale, and nothing here
//! assumes otherwise.

use vstd::prelude::*;
use vstd::string::StringExecFns;
use crate::text::{is_blank, is_blank_seq, str_eq};

verus! {

/// The global remote-mode flag as stored in the config record.
pub struct RemoteConfig {
    pub enabled: bool,
}

/// Where notifications go: channel name, target id and listen address for
/// the messenger, and the domain under which transcripts are served.
pub struct NotificationConfig {
    pub channel: String,
    pub wxid: String,
    pub listen: String,
    pub transcript_domain: String,
}

/// How the messenger command-line tool is invoked.
pub struct GeweCliConfig {
    pub command: String,
    pub timeout: u64,
}

/// The whole config record.
pub struct Config {
    pub remote: RemoteConfig,
    pub notification: NotificationConfig,
    pub gewe_cli: GeweCliConfig,
}

/// Mathematical view of a [`Config`]: every text field as a character
/// sequence.
pub struct ConfigV {
    pub enabled: bool,
    pub channel: Seq<char>,
    pub wxid: Seq<char>,
    pub listen: Seq<char>,
    pub transcript_domain: Seq<char>,
    pub command: Seq<char>,
    pub timeout: u64,
}

impl View for Config {
    type V = ConfigV;

    open spec fn view(&self) -> ConfigV {
        ConfigV {
            enabled: self.remote.enabled,
            channel: self.notification.channel@,
            wxid: self.notification.wxid@,
            listen: self.notification.listen@,
            transcript_domain: self.notification.transcript_domain@,
            command: self.gewe_cli.command@,
            timeout: self.gewe_cli.timeout,
        }
    }
}

/// The view of a freshly defaulted config record.
pub open spec fn default_config_view() -> ConfigV {
    ConfigV {
        enabled: false,
        channel: "wechat"@,
        wxid: Seq::<char>::empty(),
        listen: Seq::<char>::empty(),
        transcript_domain: Seq::<char>::empty(),
        command: "gewe-cli"@,
        timeout: 0,
    }
}

pub fn default_gewe_cli_command() -> (r: String)
    ensures
        r@ == "gewe-cli"@,
{
    "gewe-cli".to_owned()
}

pub fn default_timeout() -> (r: u64)
    ensures
        r == 0,
{
    0
}

impl Default for NotificationConfig {
    fn default() -> (r: Self)
        ensures
            r.channel@ == "wechat"@,
            r.wxid@ == Seq::<char>::empty(),
            r.listen@ == Seq::<char>::empty(),
            r.transcript_domain@ == Seq::<char>::empty(),
    {
        NotificationConfig {
            channel: "wechat".to_owned(),
            wxid: String::new(),
            listen: String::new(),
            transcript_domain: String::new(),
        }
    }
}

impl Default for Config {
    fn default() -> (r: Self)
        ensures
            r@ == default_config_view(),
    {
        Config {
            remote: RemoteConfig { enabled: false },
            notification: NotificationConfig::default(),
            gewe_cli: GeweCliConfig { command: default_gewe_cli_command(), timeout: default_timeout() },
        }
    }
}

/// Why a read of the config record can fail: the record does not exist.
#[derive(Clone, Copy, PartialEq, Eq, Structural, Debug)]
pub enum ConfigError {
    NotFound,
}

/// Snapshot of the persisted remote-mode state, together with the
/// locations the state was read from.
///
/// `config` is `None` when the config record is missing or unreadable;
/// `lock_present` records whether the lock file exists.  The two encode
/// "enabled" redundantly and may drift apart; [`ConfigManager::is_remote_enabled`]
/// fixes the read precedence (lock wins) and the enable/disable mutations
/// are the one place both are resynchronized.
pub struct ConfigManager {
    config_dir: String,
    config_file: String,
    config: Option<Config>,
    lock_present: bool,
    disabled_sessions: Vec<String>,
}

/// Mathematical view of a [`ConfigManager`] snapshot.
pub struct StoreV {
    pub config_dir: Seq<char>,
    pub config_file: Seq<char>,
    pub config: Option<ConfigV>,
    pub lock_present: bool,
    pub disabled: Seq<Seq<char>>,
}

impl View for ConfigManager {
    type V = StoreV;

    closed spec fn view(&self) -> StoreV {
        StoreV {
            config_dir: self.config_dir@,
            config_file: self.config_file@,
            config: match self.config {
                Some(c) => Some(c@),
                None => None,
            },
            lock_present: self.lock_present,
            disabled: self.disabled_sessions.deep_view(),
        }
    }
}

/// Remote mode counts as enabled when the lock file exists; failing that,
/// when the config record exists and its flag is set.
pub open spec fn spec_is_enabled(s: StoreV) -> bool {
    s.lock_present || (s.config matches Some(c) && c.enabled)
}

/// The config record as it stands right after enabling: the stored one,
/// or a fresh default when none was stored, with the flag set.
pub open spec fn spec_enabled_config(s: StoreV) -> ConfigV {
    let base = match s.config {
        Some(c) => c,
        None => default_config_view(),
    };
    ConfigV { enabled: true, ..base }
}

/// Enabling writes both encodings: the flag is set in the config record
/// (created from defaults when missing) and the lock file is created.
pub open spec fn spec_enable(s: StoreV) -> StoreV {
    StoreV { config: Some(spec_enabled_config(s)), lock_present: true, ..s }
}

/// Disabling clears the flag in the config record when one exists, and
/// removes the lock file either way.
pub open spec fn spec_disable(s: StoreV) -> StoreV {
    StoreV {
        config: match s.config {
            Some(c) => Some(ConfigV { enabled: false, ..c }),
            None => None,
        },
        lock_present: false,
        ..s
    }
}

/// The disabled-session set after adding `id`: unchanged when already
/// present, appended otherwise.
pub open spec fn spec_disabled_insert(d: Seq<Seq<char>>, id: Seq<char>) -> Seq<Seq<char>> {
    if d.contains(id) {
        d
    } else {
        d.push(id)
    }
}

/// A blank id cannot be recorded; any other id is added to the set.
pub open spec fn spec_disable_session(s: StoreV, id: Seq<char>) -> StoreV {
    if is_blank_seq(id) {
        s
    } else {
        StoreV { disabled: spec_disabled_insert(s.disabled, id), ..s }
    }
}

/// A session is disabled when its id is not blank and is in the set.
pub open spec fn spec_session_disabled(s: StoreV, id: Seq<char>) -> bool {
    !is_blank_seq(id) && s.disabled.contains(id)
}

/// The updated config record: each field that was given replaces the
/// stored one, the others are kept.
pub open spec fn spec_update_notification(
    c: ConfigV,
    wxid: Option<Seq<char>>,
    listen: Option<Seq<char>>,
    transcript_domain: Option<Seq<char>>,
) -> ConfigV {
    ConfigV {
        wxid: match wxid {
            Some(w) => w,
            None => c.wxid,
        },
        listen: match listen {
            Some(l) => l,
            None => c.listen,
        },
        transcript_domain: match transcript_domain {
            Some(t) => t,
            None => c.transcript_domain,
        },
        ..c
    }
}

/// No id occurs twice in the disabled-session set.
pub open spec fn disabled_unique(d: Seq<Seq<char>>) -> bool {
    forall|i: int, j: int| 0 <= i < j < d.len() ==> d[i] != d[j]
}

/// Disabling a session is immediately visible: right after
/// `disable_session(id)` a non-blank `id` reads as disabled.  A blank id
/// is a no-op, and the empty id never reads as disabled, whatever the
/// store holds.
pub proof fn lemma_disable_session_round_trip(s: StoreV, id: Seq<char>)
    ensures
        !is_blank_seq(id) ==> spec_session_disabled(spec_disable_session(s, id), id),
        is_blank_seq(id) ==> spec_disable_session(s, id) == s,
        !spec_session_disabled(s, Seq::<char>::empty()),
{
    if !is_blank_seq(id) && !s.disabled.contains(id) {
        assert(spec_disabled_insert(s.disabled, id)[s.disabled.len() as int] == id);
    }
}

/// Enabling and disabling write both encodings of the flag, so the read
/// — lock first, config flag second — agrees with the last mutation.
pub proof fn lemma_enable_disable_resync(s: StoreV)
    ensures
        spec_is_enabled(spec_enable(s)),
        !spec_is_enabled(spec_disable(s)),
{
}

impl ConfigManager {
    /// Builds a snapshot from what the surrounding binary read off disk:
    /// the home directory, the parsed config record (`None` when missing
    /// or unreadable), whether the lock file exists, and the stored
    /// disabled-session ids.
    pub fn new(
        home: &str,
        config: Option<Config>,
        lock_present: bool,
        disabled_sessions: Vec<String>,
    ) -> (r: ConfigManager)
        ensures
            r@.config_dir == home@ + "/.gewe-cc"@,
            r@.config_file == home@ + "/.gewe-cc/config.toml"@,
            r@.config == (match config {
                Some(c) => Some(c@),
                None => None::<ConfigV>,
            }),
            r@.lock_present == lock_present,
            r@.disabled == disabled_sessions.deep_view(),
    {
        let config_dir = home.to_owned().concat("/.gewe-cc");
        let config_file = home.to_owned().concat("/.gewe-cc/config.toml");
        ConfigManager { config_dir, config_file, config, lock_present, disabled_sessions }
    }

    /// The directory that holds all persisted state.
    pub fn config_dir(&self) -> (r: &str)
        ensures
            r@ == self@.config_dir,
    {
        self.config_dir.as_str()
    }

    /// The path of the config record.
    pub fn config_file(&self) -> (r: &str)
        ensures
            r@ == self@.config_file,
    {
        self.config_file.as_str()
    }

    /// The path of the stored disabled-session set.
    pub fn session_disabled_file(&self) -> (r: String)
        ensures
            r@ == self@.config_dir + "/session_disabled.json"@,
    {
        self.config_dir.clone().concat("/session_disabled.json")
    }

    /// The config record, or `NotFound` when there is none.
    pub fn load(&self) -> (r: Result<&Config, ConfigError>)
        ensures
            match r {
                Ok(c) => self@.config == Some(c@),
                Err(e) => e == ConfigError::NotFound && self@.config is None,
            },
    {
        match &self.config {
            Some(c) => Ok(c),
            None => Err(ConfigError::NotFound),
        }
    }

    /// Replaces the config record.
    pub fn save(&mut self, config: Config)
        ensures
            final(self)@ == (StoreV { config: Some(config@), ..old(self)@ }),
    {
        self.config = Some(config);
    }

    /// Whether remote mode is on, with the lock file taking precedence
    /// over the config flag, and a missing record counting as off.
    pub fn is_remote_enabled(&self) -> (r: bool)
        ensures
            r == spec_is_enabled(self@),
    {
        if self.lock_present {
            return true;
        }
        match &self.config {
            Some(c) => c.remote.enabled,
            None => false,
        }
    }

    /// Turns remote mode on in both encodings.  Enabling twice is the
    /// same as enabling once.
    pub fn enable_remote(&mut self)
        ensures
            final(self)@ == spec_enable(old(self)@),
    {
        let mut c = match self.config.take() {
            Some(c) => c,
            None => Config::default(),
        };
        c.remote.enabled = true;
        self.config = Some(c);
        self.lock_present = true;
    }

    /// Turns remote mode off in both encodings.
    pub fn disable_remote(&mut self)
        ensures
            final(self)@ == spec_disable(old(self)@),
    {
        match self.config.take() {
            Some(mut c) => {
                c.remote.enabled = false;
                self.config = Some(c);
            },
            None => {},
        }
        self.lock_present = false;
    }

    /// Updates the notification fields of the config record; fails with
    /// `NotFound` when there is no record to update.
    pub fn update_notification(
        &mut self,
        wxid: Option<String>,
        listen: Option<String>,
        transcript_domain: Option<String>,
    ) -> (r: Result<(), ConfigError>)
        ensures
            match r {
                Ok(()) => old(self)@.config matches Some(c) && final(self)@ == (StoreV {
                    config: Some(
                        spec_update_notification(
                            c,
                            wxid.deep_view(),
                            listen.deep_view(),
                            transcript_domain.deep_view(),
                        ),
                    ),
                    ..old(self)@
                }),
                Err(e) => e == ConfigError::NotFound && old(self)@.config is None && final(self)@
                    == old(self)@,
            },
    {
        match self.config.take() {
            Some(mut c) => {
                match wxid {
                    Some(w) => {
                        c.notification.wxid = w;
                    },
                    None => {},
                }
                match listen {
                    Some(l) => {
                        c.notification.listen = l;
                    },
                    None => {},
                }
                match transcript_domain {
                    Some(t) => {
                        c.notification.transcript_domain = t;
                    },
                    None => {},
                }
                self.config = Some(c);
                Ok(())
            },
            None => Err(ConfigError::NotFound),
        }
    }

    /// Whether the disabled-session set holds `session_id`.
    fn contains_disabled(&self, session_id: &str) -> (r: bool)
        ensures
            r == self@.disabled.contains(session_id@),
    {
        let n = self.disabled_sessions.len();
        let mut i: usize = 0;
        while i < n
            invariant
                i <= n,
                n == self.disabled_sessions.len(),
                forall|j: int| 0 <= j < i ==> self@.disabled[j] != session_id@,
            decreases n - i,
        {
            if str_eq(self.disabled_sessions[i].as_str(), session_id) {
                assert(self@.disabled[i as int] == session_id@);
                return true;
            }
            i = i + 1;
        }
        assert(!self@.disabled.contains(session_id@));
        false
    }

    /// Records that `session_id` opted out of remote gating.  A blank id
    /// is a no-op: there is nothing meaningful to record.  An id, once
    /// recorded, is never removed by any operation of this store.
    pub fn disable_session(&mut self, session_id: &str)
        ensures
            final(self)@ == spec_disable_session(old(self)@, session_id@),
            disabled_unique(old(self)@.disabled) ==> disabled_unique(final(self)@.disabled),
    {
        if is_blank(session_id) {
            return;
        }
        if !self.contains_disabled(session_id) {
            self.disabled_sessions.push(session_id.to_owned());
            proof {
                assert(self@.disabled =~= old(self)@.disabled.push(session_id@));
            }
        }
    }

    /// Whether `session_id` has opted out: never true for a blank id.
    pub fn is_session_disabled(&self, session_id: &str) -> (r: bool)
        ensures
            r == spec_session_disabled(self@, session_id@),
    {
        if is_blank(session_id) {
            return false;
        }
        self.contains_disabled(session_id)
    }

    /// The config record, if one is loaded.
    pub fn config(&self) -> (r: Option<&Config>)
        ensures
            match r {
                Some(c) => self@.config == Some(c@),
                None => self@.config is None,
            },
    {
        match &self.config {
            Some(c) => Some(c),
            None => None,
        }
    }

    /// Whether the lock file existed when the snapshot was taken, or has
    /// been created by a mutation since.
    pub fn lock_present(&self) -> (r: bool)
        ensures
            r == self@.lock_present,
    {
        self.lock_present
    }

    /// The recorded disabled-session ids.
    pub fn disabled_sessions(&self) -> (r: &Vec<String>)
        ensures
            r.deep_view() == self@.disabled,
    {
        &self.disabled_sessions
    }
}

} // verus!
