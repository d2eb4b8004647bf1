use vstd::prelude::*;
use crate::channel::ChannelManager;
use crate::config::LocalConfig;
use crate::text::{i64_to_dec, int_digits};

verus! {

/// The handshake record the background server writes while it starts up.
/// `port` and `token` stay unset until the server has bound its address.
/// Reading and decoding the record file happens at the outer layer.
#[derive(Debug, Clone, PartialEq)]
pub struct SessionRecord {
    pub pid: i64,
    pub port: Option<i32>,
    pub token: Option<String>,
    pub start_time: i64,
}

/// The body of the server's health endpoint.
#[derive(Debug, Clone, PartialEq)]
pub struct AppStatusRes {
    pub status: String,
}

/// An established, authenticated binding to the running server, valid for
/// one command invocation.
#[derive(Debug, Clone, PartialEq)]
pub struct Session {
    pub address: String,
    pub token: String,
}

/// Address and credential once discovered; both unset until the handshake
/// record is complete.
#[derive(Debug, Clone, PartialEq)]
pub struct Access {
    pub address: Option<String>,
    pub token: Option<String>,
}

#[derive(Debug, Clone, Copy, PartialEq, Eq, Structural)]
pub enum ServerStatusType {
    Stop,
    Starting,
    Loading,
    Running,
}

impl ServerStatusType {
    /// The status as it is printed.
    pub fn name(&self) -> (r: &'static str)
        ensures
            r@ == match *self {
                ServerStatusType::Stop => "Stop"@,
                ServerStatusType::Starting => "Starting"@,
                ServerStatusType::Loading => "Loading"@,
                ServerStatusType::Running => "Running"@,
            },
    {
        match self {
            ServerStatusType::Stop => "Stop",
            ServerStatusType::Starting => "Starting",
            ServerStatusType::Loading => "Loading",
            ServerStatusType::Running => "Running",
        }
    }
}

#[derive(Debug, Clone, PartialEq)]
pub struct ServerStatus {
    pub status: ServerStatusType,
    pub pid: Option<i64>,
    pub port: Option<i32>,
    pub start_time: Option<i64>,
}

#[derive(Debug, Clone, PartialEq)]
pub struct ListResult<T> {
    pub total: i32,
    pub result: Vec<T>,
}

#[derive(Debug, Clone, PartialEq)]
pub struct ErrorResult {
    pub code: String,
    pub message: String,
}

#[derive(Debug, Clone, PartialEq)]
pub struct IdWithWarning {
    pub id: i32,
    pub warnings: Vec<ErrorResult>,
}

#[derive(Debug, Clone, PartialEq)]
pub struct IdRes {
    pub id: i32,
}

/// Only this health payload means the server is fully operational; any
/// other value means it is still starting or loading.
pub open spec fn ready_text() -> Seq<char> {
    "READY"@
}

/// Whether the handshake record carries both the port and the token.
pub open spec fn record_complete(record: Option<SessionRecord>) -> bool {
    match record {
        Some(r) => r.port is Some && r.token is Some,
        None => false,
    }
}

/// The three ways a health probe can turn out: no connection, reachable but
/// not ready, or ready.
#[derive(Debug, Clone, Copy, PartialEq, Eq, Structural)]
pub enum ProbeClass {
    Unreachable,
    NotReady,
    Ready,
}

pub open spec fn probe_class(health: Option<AppStatusRes>) -> ProbeClass {
    match health {
        None => ProbeClass::Unreachable,
        Some(h) => if h.status@ == ready_text() {
            ProbeClass::Ready
        } else {
            ProbeClass::NotReady
        },
    }
}

/// The status mapping: `Stop` without a record, `Starting` while the record
/// is incomplete or the probe cannot connect, `Loading` when the probe
/// answers but is not ready, `Running` once it reports ready.
pub open spec fn status_type_spec(
    record: Option<SessionRecord>,
    health: Option<AppStatusRes>,
) -> ServerStatusType {
    match record {
        None => ServerStatusType::Stop,
        Some(_) => if !record_complete(record) {
            ServerStatusType::Starting
        } else {
            match probe_class(health) {
                ProbeClass::Unreachable => ServerStatusType::Starting,
                ProbeClass::NotReady => ServerStatusType::Loading,
                ProbeClass::Ready => ServerStatusType::Running,
            }
        },
    }
}

/// Classifies the overall server status from the two observations: the
/// handshake record (if any) and the health-probe response (if any probe
/// was answered). The caller probes only when the record is complete; with
/// an absent or incomplete record the probe argument is ignored.
pub fn classify_status(record: &Option<SessionRecord>, health: &Option<AppStatusRes>) -> (r:
    ServerStatus)
    ensures
        r.status == status_type_spec(*record, *health),
        r.pid == match *record {
            Some(rec) => Some(rec.pid),
            None => None::<i64>,
        },
        r.port == match *record {
            Some(rec) => rec.port,
            None => None::<i32>,
        },
        r.start_time == match *record {
            Some(rec) => Some(rec.start_time),
            None => None::<i64>,
        },
{
    match record {
        None => ServerStatus {
            status: ServerStatusType::Stop,
            pid: None,
            port: None,
            start_time: None,
        },
        Some(rec) => {
            let complete = rec.port.is_some() && rec.token.is_some();
            let status = if !complete {
                ServerStatusType::Starting
            } else {
                match health {
                    None => ServerStatusType::Starting,
                    Some(h) => {
                        let ready: String = "READY".to_owned();
                        if h.status == ready {
                            ServerStatusType::Running
                        } else {
                            ServerStatusType::Loading
                        }
                    },
                }
            };
            ServerStatus { status, pid: Some(rec.pid), port: rec.port, start_time: Some(
                rec.start_time,
            ) }
        },
    }
}

/// The status is a function of three observations alone: whether a record
/// exists, whether it is complete, and how the probe turned out. Every
/// other detail (pid, start time, token value, payload text) is irrelevant.
pub proof fn lemma_status_deterministic(
    r1: Option<SessionRecord>,
    h1: Option<AppStatusRes>,
    r2: Option<SessionRecord>,
    h2: Option<AppStatusRes>,
)
    requires
        r1 is Some <==> r2 is Some,
        record_complete(r1) == record_complete(r2),
        probe_class(h1) == probe_class(h2),
    ensures
        status_type_spec(r1, h1) == status_type_spec(r2, h2),
{
}

/// The local loopback address the server listens on once it has bound the
/// given port.
pub open spec fn address_text(port: int) -> Seq<char> {
    "http://localhost:"@ + int_digits(port)
}

/// Builds the local loopback address the server listens on.
pub fn localhost_address(port: i32) -> (r: String)
    ensures
        r@ == address_text(port as int),
{
    let mut s = "http://localhost:".to_owned();
    let digits = i64_to_dec(port as i64);
    s.append(digits.as_str());
    proof {
        assert(s@ =~= address_text(port as int));
    }
    s
}

/// Derives the session from a fully populated handshake record.
pub fn make_session(port: i32, token: String) -> (r: Session)
    ensures
        r.address@ == address_text(port as int),
        r.token == token,
{
    Session { address: localhost_address(port), token }
}

impl Access {
    /// Resolves a request path against the discovered address; without one
    /// the path is used as a full URL (supporting tooling and tests).
    pub fn resolve_url(&self, path: &str) -> (r: String)
        ensures
            match self.address {
                Some(a) => r@ == a@ + path@,
                None => r@ == path@,
            },
    {
        match &self.address {
            Some(a) => a.clone().concat(path),
            None => path.to_owned(),
        }
    }

    /// The value of the authorization header carrying the bearer token.
    pub fn bearer_value(token: &str) -> (r: String)
        ensures
            r@ == "Bearer "@ + token@,
    {
        let mut s = "Bearer ".to_owned();
        s.append(token);
        s
    }
}

/// A response body is decoded as a success value exactly for 2xx and 3xx
/// statuses; anything else is decoded as a structured API error.
pub fn is_success_status(status: u16) -> (r: bool)
    ensures
        r == (200 <= status < 400),
{
    200 <= status && status < 400
}

/// Owns the paths and credentials needed to spawn, observe and address the
/// background server. The HTTP client and all I/O live at the outer layer.
pub struct ServerManager {
    pub server_path: String,
    pub appdata_path: String,
    pub channel: String,
    pub access: Access,
}

impl ServerManager {
    pub fn new(config: &LocalConfig, channel_manager: &ChannelManager) -> (r: ServerManager)
        ensures
            r.server_path@ == config.work_path.server_path@,
            r.appdata_path@ == config.work_path.appdata_path@,
            r.channel@ == channel_manager.channel@,
            r.access.address is None,
            r.access.token is None,
    {
        ServerManager {
            server_path: config.work_path.server_path.clone(),
            appdata_path: config.work_path.appdata_path.clone(),
            channel: channel_manager.current_channel().to_owned(),
            access: Access { address: None, token: None },
        }
    }

    /// The channel-scoped working directory the server is bound to.
    pub open spec fn channel_dir_text(self) -> Seq<char> {
        self.appdata_path@ + "/channel/"@ + self.channel@
    }

    pub fn channel_dir(&self) -> (r: String)
        ensures
            r@ == self.channel_dir_text(),
    {
        let mut s = self.appdata_path.clone();
        s.append("/channel/");
        s.append(self.channel.as_str());
        s
    }

    /// Where the server writes its handshake record.
    pub fn record_file_path(&self) -> (r: String)
        ensures
            r@ == self.channel_dir_text() + "/PID"@,
    {
        let mut s = self.channel_dir();
        s.append("/PID");
        s
    }

    /// Where the spawned server's stdout and stderr are redirected.
    pub fn log_file_path(&self) -> (r: String)
        ensures
            r@ == self.channel_dir_text() + "/server.log"@,
    {
        let mut s = self.channel_dir();
        s.append("/server.log");
        s
    }

    /// The server binary under the configured server directory.
    pub fn server_bin_path(&self) -> (r: String)
        ensures
            r@ == self.server_path@ + "/bin/hedge-v3-server"@,
    {
        let mut s = self.server_path.clone();
        s.append("/bin/hedge-v3-server");
        s
    }

    /// The argument list the server binary is spawned with: one flag naming
    /// the channel-scoped working directory.
    pub fn spawn_args(&self) -> (r: Vec<String>)
        ensures
            r@.len() == 2,
            r@[0]@ == "--channel-path"@,
            r@[1]@ == self.channel_dir_text(),
    {
        let mut args: Vec<String> = Vec::new();
        args.push("--channel-path".to_owned());
        args.push(self.channel_dir());
        args
    }

    /// Fixes the address and credential once the handshake record carries
    /// both; the other fields are untouched.
    pub fn set_access(&mut self, port: i32, token: String)
        ensures
            final(self).access.address matches Some(a) && a@ == address_text(port as int),
            final(self).access.token == Some(token),
            final(self).server_path == old(self).server_path,
            final(self).appdata_path == old(self).appdata_path,
            final(self).channel == old(self).channel,
    {
        self.access = Access { address: Some(localhost_address(port)), token: Some(token) };
    }
}

/// Acquisition spawns the server exactly when no handshake record exists;
/// a record of a server still starting is polled, never respawned.
pub fn spawn_needed(record: &Option<SessionRecord>) -> (r: bool)
    ensures
        r == (*record is None),
{
    record.is_none()
}

/// The lease-renewal body sent to the server's lifetime endpoint.
pub open spec fn lease_body_text(interval: int) -> Seq<char> {
    "{\"interval\":"@ + int_digits(interval) + ",\"standalone\":true}"@
}

pub fn lease_body(interval: i64) -> (r: String)
    ensures
        r@ == lease_body_text(interval as int),
{
    let mut s = "{\"interval\":".to_owned();
    let digits = i64_to_dec(interval);
    s.append(digits.as_str());
    s.append(",\"standalone\":true}");
    proof {
        assert(s@ =~= lease_body_text(interval as int));
    }
    s
}

pub open spec fn bool_text(b: bool) -> Seq<char> {
    if b {
        "true"@
    } else {
        "false"@
    }
}

/// The body that switches the server's permanent (command-line-application)
/// lifetime mode on or off.
pub open spec fn permanent_body_text(enable: bool) -> Seq<char> {
    "{\"type\":\"command-line-application\",\"value\":"@ + bool_text(enable) + "}"@
}

pub fn permanent_body(enable: bool) -> (r: String)
    ensures
        r@ == permanent_body_text(enable),
{
    let mut s = "{\"type\":\"command-line-application\",\"value\":".to_owned();
    if enable {
        s.append("true");
    } else {
        s.append("false");
    }
    s.append("}");
    proof {
        assert(s@ =~= permanent_body_text(enable));
    }
    s
}

/// The two session-acquisition modes: a one-shot session for a single
/// command, or a maintained session kept alive by a heartbeat task.
#[derive(Debug, Clone, Copy, PartialEq, Eq, Structural)]
pub enum AcquireMode {
    OneShot,
    Maintained,
}

/// The lease asked for by the single renewal sent right after acquisition
/// in one-shot mode.
pub const ONESHOT_LEASE_MS: i64 = 10000;

/// The lease asked for right after acquisition in maintained mode.
pub const MAINTAINED_LEASE_MS: i64 = 30000;

/// The lease duration of the renewal sent immediately after a successful
/// handshake: short for a one-shot session, longer for a maintained one.
pub fn lease_interval_ms(mode: &AcquireMode) -> (r: i64)
    ensures
        r == match *mode {
            AcquireMode::OneShot => ONESHOT_LEASE_MS as int,
            AcquireMode::Maintained => MAINTAINED_LEASE_MS as int,
        },
{
    match mode {
        AcquireMode::OneShot => ONESHOT_LEASE_MS,
        AcquireMode::Maintained => MAINTAINED_LEASE_MS,
    }
}

/// How often the maintained-session task renews its lease.
pub const HEARTBEAT_SLEEP_MS: u64 = 25000;

/// The lease duration each renewal asks for; being longer than the sleep
/// interval, the server-side lease cannot lapse between renewals.
pub const HEARTBEAT_LEASE_MS: i64 = 30000;

/// The renewal interval always undercuts the requested lease, so a lease
/// renewed on schedule never lapses even under scheduler jitter.
pub proof fn lemma_heartbeat_overlap()
    ensures
        (HEARTBEAT_SLEEP_MS as int) < HEARTBEAT_LEASE_MS as int,
{
}

/// Book-keeping of the periodic lease-renewal task. The task is never
/// joined by the owning command and ends only with the process.
pub struct HeartbeatState {
    pub renewals: u64,
    pub failures: u64,
}

impl HeartbeatState {
    pub open spec fn wf(self) -> bool {
        self.failures <= self.renewals
    }

    pub fn new() -> (r: HeartbeatState)
        ensures
            r.renewals == 0,
            r.failures == 0,
            r.wf(),
    {
        HeartbeatState { renewals: 0, failures: 0 }
    }

    /// Records the outcome of one renewal. A failure is counted and the
    /// loop keeps running: a renewal failure never ends the task and never
    /// propagates to the owning command.
    pub fn after_renewal(&mut self, ok: bool) -> (keep_running: bool)
        requires
            old(self).wf(),
            old(self).renewals < u64::MAX,
        ensures
            final(self).renewals == old(self).renewals + 1,
            final(self).failures == old(self).failures + (if ok {
                0int
            } else {
                1int
            }),
            final(self).wf(),
            keep_running,
    {
        self.renewals = self.renewals + 1;
        if !ok {
            self.failures = self.failures + 1;
        }
        true
    }
}

/// Runs the heartbeat book-keeping over a script of renewal outcomes, one
/// per renewal. Every outcome is processed — a failed renewal is only
/// counted, it never stops the loop — so the task outlives any run of
/// failures.
pub fn run_heartbeat(outcomes: &Vec<bool>) -> (r: HeartbeatState)
    requires
        outcomes@.len() < u64::MAX,
    ensures
        r.renewals == outcomes@.len(),
        r.failures == crate::sweep::count_failures(outcomes@),
{
    let mut heartbeat = HeartbeatState::new();
    let mut i: usize = 0;
    while i < outcomes.len()
        invariant
            i <= outcomes@.len(),
            outcomes@.len() < u64::MAX,
            heartbeat.renewals == i,
            heartbeat.failures == crate::sweep::count_failures(outcomes@.subrange(0, i as int)),
            heartbeat.wf(),
        decreases outcomes@.len() - i,
    {
        let keep_running = heartbeat.after_renewal(outcomes[i]);
        proof {
            assert(keep_running);
            assert(outcomes@.subrange(0, i as int + 1).drop_last() =~= outcomes@.subrange(
                0,
                i as int,
            ));
            assert(outcomes@.subrange(0, i as int + 1).last() == outcomes@[i as int]);
        }
        i = i + 1;
    }
    proof {
        assert(outcomes@.subrange(0, outcomes@.len() as int) =~= outcomes@);
    }
    heartbeat
}

} // verus!
