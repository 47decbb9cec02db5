//! The router daemon's jobs: when each periodic job is due, and the rule
//! that a job never runs twice at once.
use vstd::prelude::*;

verus! {

/// Seconds between heartbeats.
pub const HEARTBEAT_FREQUENCY_SECS: u64 = 20;

/// Seconds between checks of tinc.
pub const CHECK_TINC_FREQUENCY_SECS: u64 = 3;

/// Seconds between fetches of the online proxies.
pub const ONLINE_PROXY_FREQUENCY_SECS: u64 = 10;

/// The periodic jobs.
#[derive(Clone, Copy, Debug, PartialEq, Eq, Structural)]
pub enum ScheduleType {
    Heartbeat,
    TincCheck,
    OnlineProxy,
}

/// The state of a job.
#[derive(Clone, Copy, Debug, PartialEq, Eq, Structural)]
pub enum Status {
    Execute,
    Finish,
    Error,
}

/// Events of the daemon's main loop: a job is due, or a job reports how it
/// ended.
#[derive(Clone, Copy, Debug, PartialEq, Eq, Structural)]
pub enum DaemonEvent {
    Schedule(ScheduleType),
    Heartbeat(Status),
    TincCheck(Status),
    OnlineProxy(Status),
}

/// The state of each job.
#[derive(Clone, Copy, Debug, PartialEq, Eq, Structural)]
pub struct DaemonStatus {
    pub heartbeat_status: Status,
    pub tinccheck_status: Status,
    pub onlineproxy_status: Status,
}

/// The state of one job.
pub open spec fn status_of(d: DaemonStatus, s: ScheduleType) -> Status {
    match s {
        ScheduleType::Heartbeat => d.heartbeat_status,
        ScheduleType::TincCheck => d.tinccheck_status,
        ScheduleType::OnlineProxy => d.onlineproxy_status,
    }
}

/// The states with one job's state replaced.
pub open spec fn with_status(d: DaemonStatus, s: ScheduleType, st: Status) -> DaemonStatus {
    match s {
        ScheduleType::Heartbeat => DaemonStatus { heartbeat_status: st, ..d },
        ScheduleType::TincCheck => DaemonStatus { tinccheck_status: st, ..d },
        ScheduleType::OnlineProxy => DaemonStatus { onlineproxy_status: st, ..d },
    }
}

/// Starting a job: it starts unless it is running.
pub open spec fn schedule_step(d: DaemonStatus, s: ScheduleType) -> (DaemonStatus, Option<ScheduleType>) {
    if status_of(d, s) != Status::Execute {
        (with_status(d, s, Status::Execute), Some(s))
    } else {
        (d, None)
    }
}

/// The job an end report is about, with the state it reports.
pub open spec fn report_of(e: DaemonEvent) -> Option<(ScheduleType, Status)> {
    match e {
        DaemonEvent::Schedule(_) => None,
        DaemonEvent::Heartbeat(st) => Some((ScheduleType::Heartbeat, st)),
        DaemonEvent::TincCheck(st) => Some((ScheduleType::TincCheck, st)),
        DaemonEvent::OnlineProxy(st) => Some((ScheduleType::OnlineProxy, st)),
    }
}

/// One event of the main loop: the new states and the job to start, if
/// any.  A due job starts unless it runs; a report records the job's state,
/// and a report of an error starts the job again at once.
pub open spec fn handle_step(d: DaemonStatus, e: DaemonEvent) -> (DaemonStatus, Option<ScheduleType>) {
    match e {
        DaemonEvent::Schedule(s) => schedule_step(d, s),
        _ => {
            let (s, st) = report_of(e)->0;
            let d1 = with_status(d, s, st);
            if st == Status::Error {
                schedule_step(d1, s)
            } else {
                (d1, None)
            }
        },
    }
}

impl DaemonStatus {
    /// All jobs finished.
    pub fn new() -> (d: DaemonStatus)
        ensures
            d.heartbeat_status == Status::Finish,
            d.tinccheck_status == Status::Finish,
            d.onlineproxy_status == Status::Finish,
    {
        DaemonStatus {
            heartbeat_status: Status::Finish,
            tinccheck_status: Status::Finish,
            onlineproxy_status: Status::Finish,
        }
    }

    fn set(&mut self, s: ScheduleType, st: Status)
        ensures
            *final(self) == with_status(*old(self), s, st),
    {
        match s {
            ScheduleType::Heartbeat => self.heartbeat_status = st,
            ScheduleType::TincCheck => self.tinccheck_status = st,
            ScheduleType::OnlineProxy => self.onlineproxy_status = st,
        }
    }

    fn get(&self, s: ScheduleType) -> (st: Status)
        ensures
            st == status_of(*self, s),
    {
        match s {
            ScheduleType::Heartbeat => self.heartbeat_status,
            ScheduleType::TincCheck => self.tinccheck_status,
            ScheduleType::OnlineProxy => self.onlineproxy_status,
        }
    }

    /// A job is due: it is marked running and returned to be started,
    /// unless it already runs.
    pub fn exec_schedule(&mut self, schedule: ScheduleType) -> (start: Option<ScheduleType>)
        ensures
            (*final(self), start) == schedule_step(*old(self), schedule),
    {
        if self.get(schedule) != Status::Execute {
            self.set(schedule, Status::Execute);
            Some(schedule)
        } else {
            None
        }
    }

    /// Handles one event of the main loop; returns the job to start.
    pub fn handle_event(&mut self, event: DaemonEvent) -> (start: Option<ScheduleType>)
        ensures
            (*final(self), start) == handle_step(*old(self), event),
    {
        match event {
            DaemonEvent::Schedule(schedule) => self.exec_schedule(schedule),
            DaemonEvent::Heartbeat(status) => {
                self.set(ScheduleType::Heartbeat, status);
                if status == Status::Error {
                    self.exec_schedule(ScheduleType::Heartbeat)
                } else {
                    None
                }
            },
            DaemonEvent::TincCheck(status) => {
                self.set(ScheduleType::TincCheck, status);
                if status == Status::Error {
                    self.exec_schedule(ScheduleType::TincCheck)
                } else {
                    None
                }
            },
            DaemonEvent::OnlineProxy(status) => {
                self.set(ScheduleType::OnlineProxy, status);
                if status == Status::Error {
                    self.exec_schedule(ScheduleType::OnlineProxy)
                } else {
                    None
                }
            },
        }
    }
}

/// A job is never started while it runs: a due job that is running starts
/// nothing and changes no state; a job that is started is running
/// afterwards; no other job's state changes.
pub proof fn lemma_no_concurrent_runs(d: DaemonStatus, s: ScheduleType)
    ensures
        status_of(d, s) == Status::Execute ==> handle_step(d, DaemonEvent::Schedule(s)) == (d, None::<ScheduleType>),
        status_of(d, s) != Status::Execute ==> handle_step(d, DaemonEvent::Schedule(s)).1 == Some(s),
        status_of(handle_step(d, DaemonEvent::Schedule(s)).0, s) == Status::Execute,
        forall|o: ScheduleType| o != s ==> status_of(handle_step(d, DaemonEvent::Schedule(s)).0, o) == status_of(d, o),
{
}

/// A job that reports an error is started again at once and is running;
/// a job that reports its end starts nothing and is recorded as finished.
pub proof fn lemma_error_restarts(d: DaemonStatus, s: ScheduleType, e: DaemonEvent, st: Status)
    requires
        report_of(e) == Some((s, st)),
    ensures
        st == Status::Error ==> handle_step(d, e).1 == Some(s) && status_of(handle_step(d, e).0, s)
            == Status::Execute,
        st == Status::Finish ==> handle_step(d, e).1 is None && status_of(handle_step(d, e).0, s)
            == Status::Finish,
{
}

/// When each job last ran, in milliseconds.
pub struct ScheduleClock {
    pub heartbeat_time: u64,
    pub check_tinc_time: u64,
    pub get_online_proxy_time: u64,
}

/// Whether a job whose last run was at `last` is due at `now`: more than
/// `period_secs` seconds have passed.
pub open spec fn due(now: u64, last: u64, period_secs: u64) -> bool {
    now > last && now - last > period_secs * 1000
}

/// The jobs due at `now`, in the order heartbeat, tinc check, online
/// proxies.
pub open spec fn due_jobs(c: ScheduleClock, now: u64) -> Seq<ScheduleType> {
    (if due(now, c.heartbeat_time, 20) {
        seq![ScheduleType::Heartbeat]
    } else {
        seq![]
    }) + (if due(now, c.check_tinc_time, 3) {
        seq![ScheduleType::TincCheck]
    } else {
        seq![]
    }) + (if due(now, c.get_online_proxy_time, 10) {
        seq![ScheduleType::OnlineProxy]
    } else {
        seq![]
    })
}

/// The clock after a tick at `now`: every job that was due ran at `now`.
pub open spec fn tick_clock(c: ScheduleClock, now: u64) -> ScheduleClock {
    ScheduleClock {
        heartbeat_time: if due(now, c.heartbeat_time, 20) {
            now
        } else {
            c.heartbeat_time
        },
        check_tinc_time: if due(now, c.check_tinc_time, 3) {
            now
        } else {
            c.check_tinc_time
        },
        get_online_proxy_time: if due(now, c.get_online_proxy_time, 10) {
            now
        } else {
            c.get_online_proxy_time
        },
    }
}

impl ScheduleClock {
    /// A clock started at `now`: no job ran yet, so none is due before its
    /// period has passed.
    pub fn new(now: u64) -> (c: ScheduleClock)
        ensures
            c.heartbeat_time == now,
            c.check_tinc_time == now,
            c.get_online_proxy_time == now,
    {
        ScheduleClock { heartbeat_time: now, check_tinc_time: now, get_online_proxy_time: now }
    }

    /// One tick of the scheduler at `now`: the jobs that are due, which are
    /// recorded as run at `now`.
    pub fn tick(&mut self, now: u64) -> (jobs: Vec<ScheduleType>)
        ensures
            jobs@ == due_jobs(*old(self), now),
            *final(self) == tick_clock(*old(self), now),
    {
        let mut jobs: Vec<ScheduleType> = Vec::new();
        let ghost c = *self;
        if now > self.heartbeat_time && now - self.heartbeat_time > HEARTBEAT_FREQUENCY_SECS * 1000 {
            jobs.push(ScheduleType::Heartbeat);
            self.heartbeat_time = now;
        }
        if now > self.check_tinc_time && now - self.check_tinc_time > CHECK_TINC_FREQUENCY_SECS
            * 1000 {
            jobs.push(ScheduleType::TincCheck);
            self.check_tinc_time = now;
        }
        if now > self.get_online_proxy_time && now - self.get_online_proxy_time
            > ONLINE_PROXY_FREQUENCY_SECS * 1000 {
            jobs.push(ScheduleType::OnlineProxy);
            self.get_online_proxy_time = now;
        }
        assert(jobs@ =~= due_jobs(c, now));
        jobs
    }
}

/// The period of a job, in seconds.
pub open spec fn period_of(s: ScheduleType) -> u64 {
    match s {
        ScheduleType::Heartbeat => 20,
        ScheduleType::TincCheck => 3,
        ScheduleType::OnlineProxy => 10,
    }
}

/// When a job last ran, by the clock.
pub open spec fn last_run(c: ScheduleClock, s: ScheduleType) -> u64 {
    match s {
        ScheduleType::Heartbeat => c.heartbeat_time,
        ScheduleType::TincCheck => c.check_tinc_time,
        ScheduleType::OnlineProxy => c.get_online_proxy_time,
    }
}

/// A tick runs a job exactly when it is due.
pub proof fn lemma_due_jobs_are_due(c: ScheduleClock, now: u64, s: ScheduleType)
    ensures
        due_jobs(c, now).contains(s) <==> due(now, last_run(c, s), period_of(s)),
{
    let j = due_jobs(c, now);
    if due(now, last_run(c, s), period_of(s)) {
        let k: int = match s {
            ScheduleType::Heartbeat => 0,
            ScheduleType::TincCheck => if due(now, c.heartbeat_time, 20) {
                1
            } else {
                0
            },
            ScheduleType::OnlineProxy => (if due(now, c.heartbeat_time, 20) {
                1int
            } else {
                0int
            }) + (if due(now, c.check_tinc_time, 3) {
                1int
            } else {
                0int
            }),
        };
        assert(j[k] == s);
    }
    if j.contains(s) {
        let k = choose|k: int| 0 <= k < j.len() && j[k] == s;
        assert(j[k] == s);
    }
}

/// Two runs of a job are more than its period apart: after a tick that
/// runs it, a later tick runs it again only if more than its period has
/// passed (20 seconds for the heartbeat, 3 for the tinc check, 10 for the
/// online proxies).
pub proof fn lemma_job_spacing(c: ScheduleClock, t1: u64, t2: u64, s: ScheduleType)
    requires
        due_jobs(c, t1).contains(s),
        t1 <= t2,
        due_jobs(tick_clock(c, t1), t2).contains(s),
    ensures
        t2 - t1 > period_of(s) * 1000,
{
    lemma_due_jobs_are_due(c, t1, s);
    lemma_due_jobs_are_due(tick_clock(c, t1), t2, s);
}

} // verus!
