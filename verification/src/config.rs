//! The miner's settings: the stored identity's public key, environment
//! variables and `-key=value` command-line overrides.

use vstd::prelude::*;
use crate::codec::{json_string_member, read_json_string_member};
use crate::identity::{stored_identity, IdentityKeys};
use crate::text::{decimal, decimal_reads_back, parse_usize, parsed_usize, same_text};

verus! {

/// Settings as plain values.
pub struct ConfigView {
    pub node_id: Seq<char>,
    pub server_url: Seq<char>,
    pub max_concurrent_jobs: nat,
    pub heartbeat_interval_secs: nat,
    pub connect_timeout_secs: nat,
}

/// The miner's settings.
#[derive(Clone, Debug)]
pub struct AppConfig {
    pub node_id: String,
    pub server_url: String,
    pub max_concurrent_jobs: usize,
    /// Seconds between two heartbeat pings.
    pub heartbeat_interval_secs: usize,
    /// Seconds allowed for connecting to the ingress server.
    pub connect_timeout_secs: usize,
}

impl View for AppConfig {
    type V = ConfigView;

    open spec fn view(&self) -> ConfigView {
        ConfigView {
            node_id: self.node_id@,
            server_url: self.server_url@,
            max_concurrent_jobs: self.max_concurrent_jobs as nat,
            heartbeat_interval_secs: self.heartbeat_interval_secs as nat,
            connect_timeout_secs: self.connect_timeout_secs as nat,
        }
    }
}

/// The values of the environment variables that the settings read, where they
/// are set.
pub struct EnvSettings {
    /// `MINER_NODE_ID`.
    pub node_id: Option<String>,
    /// `DEPING_GRPC_ENDPOINT`; it wins over `SERVER_GRPC_URL`.
    pub grpc_endpoint: Option<String>,
    /// `SERVER_GRPC_URL`.
    pub server_url: Option<String>,
    /// `DEPING_MAX_CONCURRENT_JOBS`; it wins over `MAX_CONCURRENT_JOBS`.
    pub deping_max_concurrent_jobs: Option<String>,
    /// `MAX_CONCURRENT_JOBS`.
    pub max_concurrent_jobs: Option<String>,
    /// `DEPING_HEARTBEAT_INTERVAL`, in seconds.
    pub heartbeat_interval: Option<String>,
    /// `DEPING_CONNECT_TIMEOUT`, in seconds.
    pub connect_timeout: Option<String>,
}

/// The environment variables as plain values.
pub struct EnvView {
    pub node_id: Option<Seq<char>>,
    pub grpc_endpoint: Option<Seq<char>>,
    pub server_url: Option<Seq<char>>,
    pub deping_max_concurrent_jobs: Option<Seq<char>>,
    pub max_concurrent_jobs: Option<Seq<char>>,
    pub heartbeat_interval: Option<Seq<char>>,
    pub connect_timeout: Option<Seq<char>>,
}

impl View for EnvSettings {
    type V = EnvView;

    open spec fn view(&self) -> EnvView {
        EnvView {
            node_id: opt_chars(self.node_id),
            grpc_endpoint: opt_chars(self.grpc_endpoint),
            server_url: opt_chars(self.server_url),
            deping_max_concurrent_jobs: opt_chars(self.deping_max_concurrent_jobs),
            max_concurrent_jobs: opt_chars(self.max_concurrent_jobs),
            heartbeat_interval: opt_chars(self.heartbeat_interval),
            connect_timeout: opt_chars(self.connect_timeout),
        }
    }
}

/// The job limit where no setting gives one.
pub const DEFAULT_MAX_CONCURRENT_JOBS: usize = 10;

/// The heartbeat interval, in seconds, where no setting gives one.
pub const DEFAULT_HEARTBEAT_INTERVAL_SECS: usize = 30;

/// The connect timeout, in seconds, where no setting gives one.
pub const DEFAULT_CONNECT_TIMEOUT_SECS: usize = 5;

pub open spec fn anonymous_node() -> Seq<char> {
    "anonymous_node"@
}

pub open spec fn default_server_url() -> Seq<char> {
    "http://127.0.0.1:50051"@
}

pub open spec fn default_max_jobs() -> nat {
    DEFAULT_MAX_CONCURRENT_JOBS as nat
}

/// The node id read from the identity file `text`: its `public_key` member, or
/// the empty text where the JSON document has no such string; `None` where
/// `text` is not JSON.
pub open spec fn file_node_id(text: Seq<char>) -> Option<Seq<char>> {
    match json_string_member(text, "public_key"@) {
        Some(Some(k)) => Some(k),
        Some(None) => Some(Seq::empty()),
        None => None,
    }
}

/// The first of two optional values that is set.
pub open spec fn first_set(preferred: Option<Seq<char>>, other: Option<Seq<char>>) -> Option<Seq<char>> {
    match preferred {
        Some(v) => Some(v),
        None => other,
    }
}

/// A count setting: the value where it reads as a `usize`, else `default`.
pub open spec fn count_setting(t: Option<Seq<char>>, default: nat) -> nat {
    match t {
        Some(t) => match parsed_usize(t) {
            Some(n) => n,
            None => default,
        },
        None => default,
    }
}

/// A duration in seconds: the value where it reads as a positive `usize`,
/// else `default`.
pub open spec fn seconds_setting(t: Option<Seq<char>>, default: nat) -> nat {
    match t {
        Some(t) => match parsed_usize(t) {
            Some(n) => if n > 0 { n } else { default },
            None => default,
        },
        None => default,
    }
}

/// The settings before command-line overrides.
pub open spec fn env_config(stored: Option<Seq<char>>, env: EnvView) -> ConfigView {
    let default_node = match stored {
        Some(t) => match file_node_id(t) {
            Some(k) => k,
            None => anonymous_node(),
        },
        None => anonymous_node(),
    };
    ConfigView {
        node_id: match env.node_id {
            Some(v) => v,
            None => default_node,
        },
        server_url: match first_set(env.grpc_endpoint, env.server_url) {
            Some(v) => v,
            None => default_server_url(),
        },
        max_concurrent_jobs: count_setting(
            first_set(env.deping_max_concurrent_jobs, env.max_concurrent_jobs),
            default_max_jobs(),
        ),
        heartbeat_interval_secs: seconds_setting(env.heartbeat_interval, DEFAULT_HEARTBEAT_INTERVAL_SECS as nat),
        connect_timeout_secs: seconds_setting(env.connect_timeout, DEFAULT_CONNECT_TIMEOUT_SECS as nat),
    }
}

/// The index of the first `=` in `s`, or its length where there is none.
pub open spec fn first_equals(s: Seq<char>) -> nat
    decreases s.len(),
{
    if s.len() == 0 {
        0
    } else if s[0] == '=' {
        0
    } else {
        1 + first_equals(s.drop_first())
    }
}

/// The key and value of an argument `-key=value`: the value runs from the first
/// `=` to the end and may hold further `=`.
pub open spec fn override_of(arg: Seq<char>) -> Option<(Seq<char>, Seq<char>)> {
    if arg.len() > 0 && arg[0] == '-' {
        let rest = arg.drop_first();
        let k = first_equals(rest) as int;
        if k < rest.len() {
            Some((rest.take(k), rest.skip(k + 1)))
        } else {
            None
        }
    } else {
        None
    }
}

/// One command-line argument applied to the settings: `-node_id=..`,
/// `-server_url=..` and `-max_jobs=..` (the last only where it reads as a
/// `usize`); every other argument leaves them unchanged.
pub open spec fn apply_override(c: ConfigView, arg: Seq<char>) -> ConfigView {
    match override_of(arg) {
        Some((key, value)) => {
            if key == "node_id"@ {
                ConfigView { node_id: value, ..c }
            } else if key == "server_url"@ {
                ConfigView { server_url: value, ..c }
            } else if key == "max_jobs"@ {
                match parsed_usize(value) {
                    Some(n) => ConfigView { max_concurrent_jobs: n, ..c },
                    None => c,
                }
            } else {
                c
            }
        },
        None => c,
    }
}

/// The arguments applied in order.
pub open spec fn apply_overrides(c: ConfigView, args: Seq<Seq<char>>) -> ConfigView
    decreases args.len(),
{
    if args.len() == 0 {
        c
    } else {
        apply_override(apply_overrides(c, args.drop_last()), args.last())
    }
}

/// The characters of each argument.
pub open spec fn texts(v: Seq<String>) -> Seq<Seq<char>> {
    v.map_values(|s: String| s@)
}

/// The arguments after the program name.
pub open spec fn after_program_name(args: Seq<Seq<char>>) -> Seq<Seq<char>> {
    if args.len() == 0 { Seq::empty() } else { args.skip(1) }
}

/// The characters of an optional string.
pub open spec fn opt_chars(o: Option<String>) -> Option<Seq<char>> {
    match o {
        Some(s) => Some(s@),
        None => None,
    }
}

proof fn lemma_first_equals(s: Seq<char>, i: int)
    requires
        0 <= i <= s.len(),
        forall|j: int| 0 <= j < i ==> s[j] != '=',
        i == s.len() || s[i] == '=',
    ensures
        first_equals(s) == i,
    decreases i,
{
    if i > 0 {
        let t = s.drop_first();
        assert forall|j: int| 0 <= j < i - 1 implies t[j] != '=' by {
            assert(t[j] == s[j + 1]);
        }
        if i < s.len() {
            assert(t[i - 1] == s[i]);
        }
        lemma_first_equals(t, i - 1);
    }
}

fn key_value(arg: &str) -> (r: Option<(String, String)>)
    ensures
        match r {
            Some((k, v)) => override_of(arg@) == Some((k@, v@)),
            None => override_of(arg@) is None,
        },
{
    let len = arg.unicode_len();
    if len == 0 || arg.get_char(0) != '-' {
        return None;
    }
    let ghost rest = arg@.drop_first();
    let mut i: usize = 1;
    while i < len && arg.get_char(i) != '='
        invariant
            1 <= i <= len,
            len == arg@.len(),
            rest == arg@.drop_first(),
            forall|j: int| 0 <= j < i - 1 ==> rest[j] != '=',
        decreases len - i,
    {
        i = i + 1;
    }
    if i == len {
        proof {
            lemma_first_equals(rest, (i - 1) as int);
        }
        return None;
    }
    proof {
        lemma_first_equals(rest, (i - 1) as int);
    }
    let key = arg.substring_char(1, i);
    let value = arg.substring_char(i + 1, len);
    assert(key@ =~= rest.take(i - 1));
    assert(value@ =~= rest.skip(i as int));
    Some((key.to_owned(), value.to_owned()))
}

proof fn lemma_override_names()
    ensures
        "node_id"@ != "server_url"@,
        "node_id"@ != "max_jobs"@,
        "server_url"@ != "max_jobs"@,
{
    reveal_strlit("node_id");
    reveal_strlit("server_url");
    reveal_strlit("max_jobs");
    assert("node_id"@.len() != "server_url"@.len());
    assert("node_id"@[0] != "max_jobs"@[0]);
    assert("server_url"@.len() != "max_jobs"@.len());
}

proof fn lemma_override_of_flag(key: Seq<char>, value: Seq<char>)
    requires
        forall|i: int| 0 <= i < key.len() ==> key[i] != '=',
    ensures
        override_of(seq!['-'] + key + seq!['='] + value) == Some((key, value)),
{
    let arg = seq!['-'] + key + seq!['='] + value;
    let rest = arg.drop_first();
    assert(rest =~= key + seq!['='] + value);
    assert forall|j: int| 0 <= j < key.len() implies rest[j] != '=' by {
        assert(rest[j] == key[j]);
    }
    assert(rest[key.len() as int] == '=');
    lemma_first_equals(rest, key.len() as int);
    assert(rest.take(key.len() as int) =~= key);
    assert(rest.skip(key.len() as int + 1) =~= value);
}

proof fn lemma_flag_spellings()
    ensures
        "-node_id="@ =~= seq!['-'] + "node_id"@ + seq!['='],
        "-max_jobs="@ =~= seq!['-'] + "max_jobs"@ + seq!['='],
        "-server_url="@ =~= seq!['-'] + "server_url"@ + seq!['='],
        forall|i: int| 0 <= i < "server_url"@.len() ==> "server_url"@[i] != '=',
        forall|i: int| 0 <= i < "node_id"@.len() ==> "node_id"@[i] != '=',
        forall|i: int| 0 <= i < "max_jobs"@.len() ==> "max_jobs"@[i] != '=',
{
    reveal_strlit("-node_id=");
    reveal_strlit("node_id");
    reveal_strlit("-max_jobs=");
    reveal_strlit("max_jobs");
    reveal_strlit("-server_url=");
    reveal_strlit("server_url");
}

/// Law: `-node_id=<value>` sets the node id to `value` and nothing else, and the
/// last such argument wins over earlier ones and over the environment.
pub proof fn node_id_flag_wins(c: ConfigView, earlier: Seq<Seq<char>>, value: Seq<char>)
    ensures
        apply_overrides(c, earlier.push("-node_id="@ + value))
            == (ConfigView { node_id: value, ..apply_overrides(c, earlier) }),
{
    lemma_flag_spellings();
    lemma_override_names();
    lemma_override_of_flag("node_id"@, value);
    assert("-node_id="@ + value =~= seq!['-'] + "node_id"@ + seq!['='] + value);
    assert(earlier.push("-node_id="@ + value).drop_last() =~= earlier);
}

/// Law: `-server_url=<value>` sets the server to `value` and nothing else, and
/// the last such argument wins over earlier ones and over the environment.
pub proof fn server_url_flag_wins(c: ConfigView, earlier: Seq<Seq<char>>, value: Seq<char>)
    ensures
        apply_overrides(c, earlier.push("-server_url="@ + value))
            == (ConfigView { server_url: value, ..apply_overrides(c, earlier) }),
{
    lemma_flag_spellings();
    lemma_override_names();
    lemma_override_of_flag("server_url"@, value);
    assert("-server_url="@ + value =~= seq!['-'] + "server_url"@ + seq!['='] + value);
    assert(earlier.push("-server_url="@ + value).drop_last() =~= earlier);
}

/// Law: `-max_jobs=` followed by the decimal spelling of a count that fits in a
/// `usize` sets the job limit to that count.
pub proof fn job_limit_flag_reads_back(c: ConfigView, n: nat)
    requires
        n <= usize::MAX,
    ensures
        apply_override(c, "-max_jobs="@ + decimal(n)) == (ConfigView { max_concurrent_jobs: n, ..c }),
{
    lemma_flag_spellings();
    lemma_override_names();
    lemma_override_of_flag("max_jobs"@, decimal(n));
    assert("-max_jobs="@ + decimal(n) =~= seq!['-'] + "max_jobs"@ + seq!['='] + decimal(n));
    decimal_reads_back(n);
}

/// Law: a `-max_jobs=` value that does not read as a `usize` leaves the
/// settings as they were.
pub proof fn unreadable_job_limit_ignored(c: ConfigView, value: Seq<char>)
    requires
        parsed_usize(value) is None,
    ensures
        apply_override(c, "-max_jobs="@ + value) == c,
{
    lemma_flag_spellings();
    lemma_override_names();
    lemma_override_of_flag("max_jobs"@, value);
    assert("-max_jobs="@ + value =~= seq!['-'] + "max_jobs"@ + seq!['='] + value);
}

/// Law: an argument that does not start with `-`, or has no `=`, changes
/// nothing.
pub proof fn plain_arguments_ignored(c: ConfigView, arg: Seq<char>)
    requires
        arg.len() == 0 || arg[0] != '-' || (forall|i: int| 0 <= i < arg.len() ==> arg[i] != '='),
    ensures
        apply_override(c, arg) == c,
{
    if arg.len() > 0 && arg[0] == '-' && (forall|i: int| 0 <= i < arg.len() ==> arg[i] != '=') {
        let rest = arg.drop_first();
        assert forall|j: int| 0 <= j < rest.len() implies rest[j] != '=' by {
            assert(rest[j] == arg[j + 1]);
        }
        lemma_first_equals(rest, rest.len() as int);
    }
}

/// Law: where the identity file holds an identity and no environment variable
/// names the node, the node is named by the identity's public key.
pub proof fn stored_identity_names_node(text: Seq<char>, k: IdentityKeys, env: EnvView)
    requires
        stored_identity(text) == Some(k),
        env.node_id is None,
    ensures
        env_config(Some(text), env).node_id == k.public_key,
{
    reveal_strlit("public_key");
}

/// Law: a duration setting that holds the decimal spelling of a positive count
/// of seconds is that count, whatever the default.
pub proof fn positive_seconds_read_back(n: nat, default: nat)
    requires
        0 < n <= usize::MAX,
    ensures
        seconds_setting(Some(decimal(n)), default) == n,
{
    decimal_reads_back(n);
}

/// Law: `DEPING_HEARTBEAT_INTERVAL` and `DEPING_CONNECT_TIMEOUT` holding the
/// decimal spelling of positive counts set the heartbeat interval and the
/// connect timeout to those counts, and `DEPING_MAX_CONCURRENT_JOBS` holding
/// the spelling of a count sets the job limit to it.
pub proof fn environment_counts_read_back(stored: Option<Seq<char>>, env: EnvView, heartbeat: nat, timeout: nat, jobs: nat)
    requires
        0 < heartbeat <= usize::MAX,
        0 < timeout <= usize::MAX,
        jobs <= usize::MAX,
        env.heartbeat_interval == Some(decimal(heartbeat)),
        env.connect_timeout == Some(decimal(timeout)),
        env.deping_max_concurrent_jobs == Some(decimal(jobs)),
    ensures
        env_config(stored, env).heartbeat_interval_secs == heartbeat,
        env_config(stored, env).connect_timeout_secs == timeout,
        env_config(stored, env).max_concurrent_jobs == jobs,
{
    decimal_reads_back(heartbeat);
    decimal_reads_back(timeout);
    decimal_reads_back(jobs);
}

/// Law: `DEPING_GRPC_ENDPOINT` and `DEPING_MAX_CONCURRENT_JOBS`, where set,
/// decide the server and the job limit whatever `SERVER_GRPC_URL` and
/// `MAX_CONCURRENT_JOBS` hold; a job limit that does not read as a count gives
/// the default of 10.
pub proof fn deping_variables_win(stored: Option<Seq<char>>, env: EnvView, endpoint: Seq<char>, jobs: Seq<char>)
    requires
        env.grpc_endpoint == Some(endpoint),
        env.deping_max_concurrent_jobs == Some(jobs),
    ensures
        env_config(stored, env).server_url == endpoint,
        env_config(stored, env).max_concurrent_jobs == (match parsed_usize(jobs) {
            Some(n) => n,
            None => 10,
        }),
{
}

/// The first of two optional strings that is set.
fn pick_set(preferred: Option<String>, other: Option<String>) -> (r: Option<String>)
    ensures
        opt_chars(r) == first_set(opt_chars(preferred), opt_chars(other)),
{
    match preferred {
        Some(v) => Some(v),
        None => other,
    }
}

/// A count setting read from its text.
fn read_count(t: Option<String>, default: usize) -> (r: usize)
    ensures
        r == count_setting(opt_chars(t), default as nat),
{
    match t {
        Some(t) => match parse_usize(t.as_str()) {
            Some(n) => n,
            None => default,
        },
        None => default,
    }
}

/// A duration in seconds read from its text.
fn read_seconds(t: Option<String>, default: usize) -> (r: usize)
    ensures
        r == seconds_setting(opt_chars(t), default as nat),
{
    match t {
        Some(t) => match parse_usize(t.as_str()) {
            Some(n) => if n > 0 { n } else { default },
            None => default,
        },
        None => default,
    }
}

impl AppConfig {
    /// The node id stored in the identity file `text`, as the settings read it:
    /// the `public_key` member, or the empty text where there is no such string;
    /// `None` where `text` is not JSON.
    pub fn load_id_from_file(text: &str) -> (r: Option<String>)
        ensures
            opt_chars(r) == file_node_id(text@),
    {
        proof {
            reveal_strlit("public_key");
        }
        match read_json_string_member(text, "public_key") {
            Some(Some(k)) => Some(k),
            Some(None) => Some(String::new()),
            None => None,
        }
    }

    /// One argument applied to the settings.
    fn apply_arg(&mut self, arg: &str)
        ensures
            final(self)@ == apply_override(old(self)@, arg@),
    {
        proof {
            lemma_override_names();
        }
        match key_value(arg) {
            Some((key, value)) => {
                if same_text(key.as_str(), "node_id") {
                    self.node_id = value;
                } else if same_text(key.as_str(), "server_url") {
                    self.server_url = value;
                } else if same_text(key.as_str(), "max_jobs") {
                    match parse_usize(value.as_str()) {
                        Some(n) => {
                            self.max_concurrent_jobs = n;
                        },
                        None => {},
                    }
                }
            },
            None => {},
        }
    }

    /// The settings: `stored` is the identity file's text where it could be
    /// read, `env` the environment variables, and `args` the command line with
    /// the program name first. Environment values override the defaults
    /// (the stored public key or `anonymous_node`, `http://127.0.0.1:50051`,
    /// 10 jobs, a heartbeat every 30 s, a 5 s connect timeout), and each
    /// `-key=value` argument after the program name overrides in turn.
    pub fn load_from_env(stored: Option<String>, env: EnvSettings, args: &Vec<String>) -> (r: AppConfig)
        ensures
            r@ == apply_overrides(env_config(opt_chars(stored), env@), after_program_name(texts(args@))),
    {
        proof {
            reveal_strlit("anonymous_node");
            reveal_strlit("http://127.0.0.1:50051");
        }
        let ghost e = env@;
        let ghost st = opt_chars(stored);
        let default_node_id = match stored {
            Some(t) => match AppConfig::load_id_from_file(t.as_str()) {
                Some(k) => k,
                None => String::from_str("anonymous_node"),
            },
            None => String::from_str("anonymous_node"),
        };
        let node_id = match env.node_id {
            Some(v) => v,
            None => default_node_id,
        };
        let server_url = match pick_set(env.grpc_endpoint, env.server_url) {
            Some(v) => v,
            None => String::from_str("http://127.0.0.1:50051"),
        };
        let max_concurrent_jobs = read_count(
            pick_set(env.deping_max_concurrent_jobs, env.max_concurrent_jobs),
            DEFAULT_MAX_CONCURRENT_JOBS,
        );
        let heartbeat_interval_secs = read_seconds(env.heartbeat_interval, DEFAULT_HEARTBEAT_INTERVAL_SECS);
        let connect_timeout_secs = read_seconds(env.connect_timeout, DEFAULT_CONNECT_TIMEOUT_SECS);
        let mut config = AppConfig {
            node_id,
            server_url,
            max_concurrent_jobs,
            heartbeat_interval_secs,
            connect_timeout_secs,
        };
        assert(config@ == env_config(st, e));
        let ghost base = config@;
        let ghost all = texts(args@);
        if args.len() == 0 {
            assert(apply_overrides(base, Seq::<Seq<char>>::empty()) == base);
            return config;
        }
        let mut i: usize = 1;
        while i < args.len()
            invariant
                1 <= i <= args.len(),
                all == texts(args@),
                config@ == apply_overrides(base, all.subrange(1, i as int)),
            decreases args.len() - i,
        {
            config.apply_arg(args[i].as_str());
            assert(all.subrange(1, i + 1).drop_last() =~= all.subrange(1, i as int));
            i = i + 1;
        }
        assert(all.subrange(1, args.len() as int) =~= all.skip(1));
        config
    }
}

} // verus!
