//! The device reconciliation cache.
//!
//! The remote transfer endpoint acknowledges a request before the transfer shows
//! in playback-state queries, so the device in use is tracked here as a state
//! machine: the caller performs each `DeviceAction` (a remote call, a prompt, a
//! pause) and feeds back what came of it as a `DeviceEvent`.
use vstd::prelude::*;

verus! {

/// How long a confirmed device is trusted without asking again, in milliseconds.
pub const DEVICE_CACHE_TTL_MS: u64 = 3000;

/// Pause between two playback-state polls after a transfer, in milliseconds.
pub const POLL_INTERVAL_MS: u64 = 100;

/// How long a transfer may take to show before it is given up, in milliseconds.
pub const MAX_TRANSFER_WAIT_MS: u64 = 1000;

/// A playback device as the remote service reports it.
pub struct DeviceInfo {
    pub id: Option<String>,
    pub name: String,
}

impl DeviceInfo {
    pub fn duplicate(&self) -> (r: DeviceInfo)
        ensures
            r == *self,
    {
        let id = match &self.id {
            Some(s) => Some(s.clone()),
            None => None,
        };
        DeviceInfo { id, name: self.name.clone() }
    }
}

/// Milliseconds from `from` to `now` on a monotonic clock; zero if `now` is earlier.
pub open spec fn elapsed(from: u64, now: u64) -> nat {
    if now >= from {
        (now - from) as nat
    } else {
        0
    }
}

/// A device confirmed active at `checked_at`, trusted for `ttl` milliseconds.
pub struct CachedDevice {
    pub device: DeviceInfo,
    pub checked_at: u64,
    pub ttl: u64,
}

impl CachedDevice {
    pub open spec fn valid_at(&self, now: u64) -> bool {
        elapsed(self.checked_at, now) < self.ttl
    }

    pub fn new(device: DeviceInfo, now: u64, ttl: u64) -> (r: CachedDevice)
        ensures
            r == (CachedDevice { device, checked_at: now, ttl }),
    {
        CachedDevice { device, checked_at: now, ttl }
    }

    pub fn is_valid(&self, now: u64) -> (r: bool)
        ensures
            r == self.valid_at(now),
    {
        let passed: u64 = if now >= self.checked_at {
            now - self.checked_at
        } else {
            0
        };
        passed < self.ttl
    }
}

/// Where the reconciler stands between two events.
pub enum DevicePhase {
    /// Nothing is pending.
    Idle,
    /// The current playback state was asked for.
    AwaitPlayback,
    /// The list of available devices was asked for.
    AwaitDevices,
    /// The user was asked to pick one of `candidates`.
    AwaitChoice { candidates: Vec<DeviceInfo> },
    /// Playback was asked to move to `target`.
    AwaitTransfer { target: DeviceInfo },
    /// A poll of the playback state is out; the transfer began at `started`.
    AwaitPoll { target: DeviceInfo, started: u64 },
    /// Waiting out the pause between two polls.
    Sleeping { target: DeviceInfo, started: u64 },
}

/// What the caller reports to the reconciler.
pub enum DeviceEvent {
    /// A playback command is about to run and needs a device.
    Ensure { now: u64 },
    /// The user asked for playback to move to `device`.
    SetDevice { device: DeviceInfo },
    /// The playback state: the active device, if anything is playing.
    Playback { active: Option<DeviceInfo>, now: u64 },
    /// The available devices.
    Devices { devices: Vec<DeviceInfo> },
    /// The user picked the candidate at `index`.
    Chosen { index: usize },
    /// The transfer request was acknowledged.
    Transferred { now: u64 },
    /// A poll came back with the name of the active device, or with nothing
    /// (no playback, or the query failed).
    Polled { name: Option<String>, now: u64 },
    /// The pause between two polls is over.
    Woke { now: u64 },
}

#[derive(PartialEq, Eq, Structural, Clone, Copy, Debug)]
pub enum DeviceError {
    /// No device is available: a client must be running.
    NoDeviceAvailable,
    /// The chosen device has no id, so playback cannot move to it.
    MissingId,
    /// The transfer did not show within the time allowed.
    TransferTimeout,
}

/// What the caller is to do next.
pub enum DeviceAction {
    /// A device is confirmed: the playback command may go on.
    Proceed,
    /// Ask for the current playback state, then report `Playback`.
    QueryPlayback,
    /// Ask for the available devices, then report `Devices`.
    ListDevices,
    /// Let the user pick one of these device names, then report `Chosen`.
    Choose { names: Vec<String> },
    /// Ask for playback to move to this device, then report `Transferred`.
    Transfer { device_id: String },
    /// Poll the playback state, then report `Polled`.
    Poll,
    /// Wait this long, then report `Woke`.
    Sleep { millis: u64 },
    /// Give up with this error.
    Fail(DeviceError),
}

/// The device cache of one session, with the exchange in progress.
pub struct DeviceReconciler {
    pub cached: Option<CachedDevice>,
    pub phase: DevicePhase,
    pub ttl: u64,
    pub poll_interval: u64,
    pub max_wait: u64,
}

/// The names of `devices`, in order.
pub open spec fn names_of(devices: Seq<DeviceInfo>) -> Seq<Seq<char>> {
    devices.map_values(|d: DeviceInfo| d.name@)
}

pub open spec fn string_views(v: Seq<String>) -> Seq<Seq<char>> {
    v.map_values(|s: String| s@)
}

impl DeviceReconciler {
    /// The same timings as `s`.
    pub open spec fn same_timings(&self, s: DeviceReconciler) -> bool {
        self.ttl == s.ttl && self.poll_interval == s.poll_interval && self.max_wait == s.max_wait
    }

    /// Whether `e` is an answer that the current phase waits for. `Ensure` and
    /// `SetDevice` are taken in any phase and abandon what was pending.
    pub open spec fn accepts(&self, e: DeviceEvent) -> bool {
        match e {
            DeviceEvent::Ensure { .. } => true,
            DeviceEvent::SetDevice { .. } => true,
            DeviceEvent::Playback { .. } => self.phase is AwaitPlayback,
            DeviceEvent::Devices { .. } => self.phase is AwaitDevices,
            DeviceEvent::Chosen { index } => match self.phase {
                DevicePhase::AwaitChoice { candidates } => index < candidates@.len(),
                _ => false,
            },
            DeviceEvent::Transferred { .. } => self.phase is AwaitTransfer,
            DeviceEvent::Polled { .. } => self.phase is AwaitPoll,
            DeviceEvent::Woke { .. } => self.phase is Sleeping,
        }
    }

    /// `t` and `a` follow from `self` by moving playback to `target`: a device
    /// without an id fails, any other is asked for.
    pub open spec fn begins_transfer(
        &self,
        target: DeviceInfo,
        t: DeviceReconciler,
        a: DeviceAction,
    ) -> bool {
        &&& t.cached == self.cached
        &&& match target.id {
            None => t.phase == DevicePhase::Idle && a == DeviceAction::Fail(
                DeviceError::MissingId,
            ),
            Some(id) => t.phase == (DevicePhase::AwaitTransfer { target }) && a == (
            DeviceAction::Transfer { device_id: id }),
        }
    }

    /// The top of the poll loop at `now`, for a transfer begun at `started`:
    /// poll while the time allowed lasts, else fail.
    pub open spec fn polls_or_times_out(
        &self,
        target: DeviceInfo,
        started: u64,
        now: u64,
        t: DeviceReconciler,
        a: DeviceAction,
    ) -> bool {
        &&& t.cached == self.cached
        &&& if elapsed(started, now) < self.max_wait {
            t.phase == (DevicePhase::AwaitPoll { target, started }) && a == DeviceAction::Poll
        } else {
            t.phase == DevicePhase::Idle && a == DeviceAction::Fail(DeviceError::TransferTimeout)
        }
    }

    /// `device` is confirmed at `now`: it replaces whatever was cached.
    pub open spec fn confirms(
        &self,
        device: DeviceInfo,
        now: u64,
        t: DeviceReconciler,
        a: DeviceAction,
    ) -> bool {
        &&& t.cached == Some(CachedDevice { device, checked_at: now, ttl: self.ttl })
        &&& t.phase == DevicePhase::Idle
        &&& a == DeviceAction::Proceed
    }

    /// The reconciler goes from `self` to `t` on event `e` and asks for `a`.
    pub open spec fn step_spec(&self, e: DeviceEvent, t: DeviceReconciler, a: DeviceAction) -> bool {
        &&& t.same_timings(*self)
        &&& match e {
            DeviceEvent::Ensure { now } => {
                if self.cached is Some && self.cached->0.valid_at(now) {
                    t.cached == self.cached && t.phase == DevicePhase::Idle && a
                        == DeviceAction::Proceed
                } else {
                    t.cached == self.cached && t.phase == DevicePhase::AwaitPlayback && a
                        == DeviceAction::QueryPlayback
                }
            },
            DeviceEvent::SetDevice { device } => self.begins_transfer(device, t, a),
            DeviceEvent::Playback { active, now } => match active {
                Some(d) => self.confirms(d, now, t, a),
                None => t.cached == self.cached && t.phase == DevicePhase::AwaitDevices && a
                    == DeviceAction::ListDevices,
            },
            DeviceEvent::Devices { devices } => {
                if devices@.len() == 0 {
                    t.cached == self.cached && t.phase == DevicePhase::Idle && a
                        == DeviceAction::Fail(DeviceError::NoDeviceAvailable)
                } else if devices@.len() == 1 {
                    self.begins_transfer(devices@[0], t, a)
                } else {
                    &&& t.cached == self.cached
                    &&& t.phase == (DevicePhase::AwaitChoice { candidates: devices })
                    &&& a matches DeviceAction::Choose { names } && string_views(names@)
                        == names_of(devices@)
                }
            },
            DeviceEvent::Chosen { index } => match self.phase {
                DevicePhase::AwaitChoice { candidates } => self.begins_transfer(
                    candidates@[index as int],
                    t,
                    a,
                ),
                _ => false,
            },
            DeviceEvent::Transferred { now } => match self.phase {
                DevicePhase::AwaitTransfer { target } => self.polls_or_times_out(
                    target,
                    now,
                    now,
                    t,
                    a,
                ),
                _ => false,
            },
            DeviceEvent::Polled { name, now } => match self.phase {
                DevicePhase::AwaitPoll { target, started } => {
                    if name is Some && name->0@ == target.name@ {
                        self.confirms(target, now, t, a)
                    } else {
                        t.cached == self.cached && t.phase == (DevicePhase::Sleeping {
                            target,
                            started,
                        }) && a == (DeviceAction::Sleep { millis: self.poll_interval })
                    }
                },
                _ => false,
            },
            DeviceEvent::Woke { now } => match self.phase {
                DevicePhase::Sleeping { target, started } => self.polls_or_times_out(
                    target,
                    started,
                    now,
                    t,
                    a,
                ),
                _ => false,
            },
        }
    }

    /// A reconciler with nothing cached, with the given timings in milliseconds.
    pub fn new(ttl: u64, poll_interval: u64, max_wait: u64) -> (r: DeviceReconciler)
        ensures
            r.cached is None,
            r.phase == DevicePhase::Idle,
            r.ttl == ttl,
            r.poll_interval == poll_interval,
            r.max_wait == max_wait,
    {
        DeviceReconciler { cached: None, phase: DevicePhase::Idle, ttl, poll_interval, max_wait }
    }

    /// A reconciler with nothing cached and the standard timings.
    pub fn standard() -> (r: DeviceReconciler)
        ensures
            r.cached is None,
            r.phase == DevicePhase::Idle,
            r.ttl == DEVICE_CACHE_TTL_MS,
            r.poll_interval == POLL_INTERVAL_MS,
            r.max_wait == MAX_TRANSFER_WAIT_MS,
    {
        DeviceReconciler::new(DEVICE_CACHE_TTL_MS, POLL_INTERVAL_MS, MAX_TRANSFER_WAIT_MS)
    }

    /// Whether `e` is an answer that the current phase waits for.
    pub fn accepts_event(&self, e: &DeviceEvent) -> (r: bool)
        ensures
            r == self.accepts(*e),
    {
        match e {
            DeviceEvent::Ensure { .. } => true,
            DeviceEvent::SetDevice { .. } => true,
            DeviceEvent::Playback { .. } => matches!(self.phase, DevicePhase::AwaitPlayback),
            DeviceEvent::Devices { .. } => matches!(self.phase, DevicePhase::AwaitDevices),
            DeviceEvent::Chosen { index } => match &self.phase {
                DevicePhase::AwaitChoice { candidates } => *index < candidates.len(),
                _ => false,
            },
            DeviceEvent::Transferred { .. } => matches!(self.phase, DevicePhase::AwaitTransfer { .. }),
            DeviceEvent::Polled { .. } => matches!(self.phase, DevicePhase::AwaitPoll { .. }),
            DeviceEvent::Woke { .. } => matches!(self.phase, DevicePhase::Sleeping { .. }),
        }
    }

    fn begin_transfer(&mut self, target: DeviceInfo) -> (a: DeviceAction)
        ensures
            final(self).same_timings(*old(self)),
            old(self).begins_transfer(target, *final(self), a),
    {
        match &target.id {
            None => {
                self.phase = DevicePhase::Idle;
                DeviceAction::Fail(DeviceError::MissingId)
            },
            Some(id) => {
                let device_id = id.clone();
                self.phase = DevicePhase::AwaitTransfer { target };
                DeviceAction::Transfer { device_id }
            },
        }
    }

    fn poll_or_time_out(&mut self, target: DeviceInfo, started: u64, now: u64) -> (a: DeviceAction)
        ensures
            final(self).same_timings(*old(self)),
            old(self).polls_or_times_out(target, started, now, *final(self), a),
    {
        let passed: u64 = if now >= started {
            now - started
        } else {
            0
        };
        if passed < self.max_wait {
            self.phase = DevicePhase::AwaitPoll { target, started };
            DeviceAction::Poll
        } else {
            self.phase = DevicePhase::Idle;
            DeviceAction::Fail(DeviceError::TransferTimeout)
        }
    }

    fn confirm(&mut self, device: DeviceInfo, now: u64) -> (a: DeviceAction)
        ensures
            final(self).same_timings(*old(self)),
            old(self).confirms(device, now, *final(self), a),
    {
        self.cached = Some(CachedDevice::new(device, now, self.ttl));
        self.phase = DevicePhase::Idle;
        DeviceAction::Proceed
    }

    /// Take event `e` and say what to do next.
    pub fn step(&mut self, e: DeviceEvent) -> (a: DeviceAction)
        requires
            old(self).accepts(e),
        ensures
            old(self).step_spec(e, *final(self), a),
    {
        let mut phase = DevicePhase::Idle;
        core::mem::swap(&mut self.phase, &mut phase);
        let ghost start = *old(self);
        assert(self.cached == start.cached && self.same_timings(start));
        match e {
            DeviceEvent::Ensure { now } => {
                let fresh = match &self.cached {
                    Some(c) => c.is_valid(now),
                    None => false,
                };
                if fresh {
                    DeviceAction::Proceed
                } else {
                    self.phase = DevicePhase::AwaitPlayback;
                    DeviceAction::QueryPlayback
                }
            },
            DeviceEvent::SetDevice { device } => self.begin_transfer(device),
            DeviceEvent::Playback { active, now } => match active {
                Some(d) => self.confirm(d, now),
                None => {
                    self.phase = DevicePhase::AwaitDevices;
                    DeviceAction::ListDevices
                },
            },
            DeviceEvent::Devices { mut devices } => {
                if devices.len() == 0 {
                    DeviceAction::Fail(DeviceError::NoDeviceAvailable)
                } else if devices.len() == 1 {
                    let only = devices.remove(0);
                    self.begin_transfer(only)
                } else {
                    let names = device_names(&devices);
                    self.phase = DevicePhase::AwaitChoice { candidates: devices };
                    DeviceAction::Choose { names }
                }
            },
            DeviceEvent::Chosen { index } => match phase {
                DevicePhase::AwaitChoice { mut candidates } => {
                    let picked = candidates.remove(index);
                    self.begin_transfer(picked)
                },
                _ => {
                    proof {
                        assert(false);
                    }
                    DeviceAction::Proceed
                },
            },
            DeviceEvent::Transferred { now } => match phase {
                DevicePhase::AwaitTransfer { target } => self.poll_or_time_out(target, now, now),
                _ => {
                    proof {
                        assert(false);
                    }
                    DeviceAction::Proceed
                },
            },
            DeviceEvent::Polled { name, now } => match phase {
                DevicePhase::AwaitPoll { target, started } => {
                    let matched = match &name {
                        Some(n) => *n == target.name,
                        None => false,
                    };
                    if matched {
                        self.confirm(target, now)
                    } else {
                        self.phase = DevicePhase::Sleeping { target, started };
                        DeviceAction::Sleep { millis: self.poll_interval }
                    }
                },
                _ => {
                    proof {
                        assert(false);
                    }
                    DeviceAction::Proceed
                },
            },
            DeviceEvent::Woke { now } => match phase {
                DevicePhase::Sleeping { target, started } => self.poll_or_time_out(
                    target,
                    started,
                    now,
                ),
                _ => {
                    proof {
                        assert(false);
                    }
                    DeviceAction::Proceed
                },
            },
        }
    }
}

/// Two playback commands in a row. The first finds no fresh cache, asks for the
/// playback state and confirms the device reported there at `t0`. A second one at
/// `t1` asks for nothing remote when `t1 - t0` is under the time to live, and asks
/// for the playback state again when it is not.
pub proof fn lemma_second_ensure_within_ttl(
    s0: DeviceReconciler,
    t0: u64,
    d: DeviceInfo,
    t1: u64,
    s1: DeviceReconciler,
    a1: DeviceAction,
    s2: DeviceReconciler,
    a2: DeviceAction,
    s3: DeviceReconciler,
    a3: DeviceAction,
)
    requires
        s0.step_spec(DeviceEvent::Ensure { now: t0 }, s1, a1),
        a1 == DeviceAction::QueryPlayback,
        s1.step_spec(DeviceEvent::Playback { active: Some(d), now: t0 }, s2, a2),
        s2.step_spec(DeviceEvent::Ensure { now: t1 }, s3, a3),
        t0 <= t1,
    ensures
        a2 == DeviceAction::Proceed,
        t1 - t0 < s0.ttl ==> a3 == DeviceAction::Proceed && s3.cached == s2.cached,
        t1 - t0 >= s0.ttl ==> a3 == DeviceAction::QueryPlayback,
{
}

/// A poll that reports some other device (or nothing) while a transfer is awaited
/// never confirms it: it leads to a pause of one poll interval with the cache left
/// as it was. On waking, the machine polls again while less than the time allowed
/// has passed since the transfer began, back in exactly the state it was in before
/// the poll, and fails with `TransferTimeout` once that time has passed. So a
/// device that never shows is polled once per interval until the time allowed is
/// spent, and then given up.
pub proof fn lemma_unseen_device_times_out(
    s: DeviceReconciler,
    name: Option<String>,
    now: u64,
    woke: u64,
    t1: DeviceReconciler,
    a1: DeviceAction,
    t2: DeviceReconciler,
    a2: DeviceAction,
)
    requires
        s.phase is AwaitPoll,
        !(name is Some && name->0@ == s.phase->AwaitPoll_target.name@),
        s.step_spec(DeviceEvent::Polled { name, now }, t1, a1),
        t1.step_spec(DeviceEvent::Woke { now: woke }, t2, a2),
        s.phase->AwaitPoll_started <= woke,
    ensures
        a1 == (DeviceAction::Sleep { millis: s.poll_interval }),
        t1.cached == s.cached,
        t2.cached == s.cached,
        woke - s.phase->AwaitPoll_started < s.max_wait ==> a2 == DeviceAction::Poll && t2 == s,
        woke - s.phase->AwaitPoll_started >= s.max_wait ==> a2 == DeviceAction::Fail(
            DeviceError::TransferTimeout,
        ),
{
}

/// The list of available devices decides: none fails with `NoDeviceAvailable`, a
/// single one is taken without asking the user, and two or more are offered to the
/// user by name, in order.
pub proof fn lemma_device_enumeration(
    s: DeviceReconciler,
    devices: Vec<DeviceInfo>,
    t: DeviceReconciler,
    a: DeviceAction,
)
    requires
        s.step_spec(DeviceEvent::Devices { devices }, t, a),
    ensures
        devices@.len() == 0 ==> a == DeviceAction::Fail(DeviceError::NoDeviceAvailable),
        devices@.len() == 1 ==> !(a is Choose) && (devices@[0].id is Some ==> a == (
        DeviceAction::Transfer { device_id: devices@[0].id->0 }) && t.phase == (
        DevicePhase::AwaitTransfer { target: devices@[0] })),
        devices@.len() >= 2 ==> a is Choose && string_views(a->Choose_names@) == names_of(
            devices@,
        ),
{
}

/// The names of `devices`, in order.
pub fn device_names(devices: &Vec<DeviceInfo>) -> (r: Vec<String>)
    ensures
        string_views(r@) == names_of(devices@),
{
    let mut r: Vec<String> = Vec::new();
    let mut i: usize = 0;
    while i < devices.len()
        invariant
            i <= devices@.len(),
            string_views(r@) == names_of(devices@.subrange(0, i as int)),
        decreases devices@.len() - i,
    {
        let ghost before = r@;
        r.push(devices[i].name.clone());
        proof {
            let prefix = devices@.subrange(0, i as int);
            assert(devices@.subrange(0, i + 1) == prefix.push(devices@[i as int]));
            assert(string_views(r@) =~= string_views(before).push(devices@[i as int].name@));
            assert(names_of(prefix.push(devices@[i as int])) =~= names_of(prefix).push(
                devices@[i as int].name@,
            ));
        }
        i = i + 1;
    }
    proof {
        assert(devices@.subrange(0, devices@.len() as int) == devices@);
    }
    r
}

} // verus!
