//! Control of the daemon's unit through the service manager.
//!
//! The manager is reached over a session that the caller owns. Starting and
//! stopping are single requests, described here by `UnitJob`. A status query
//! takes several round trips; `StatusQuery` decides each next request from the
//! replies it is handed and assembles the result.
use vstd::prelude::*;

use crate::text::same_text;

verus! {

/// The bus name, object path and interfaces of the service manager.
pub const MANAGER_DESTINATION: &'static str = "org.freedesktop.systemd1";
pub const MANAGER_PATH: &'static str = "/org/freedesktop/systemd1";
pub const MANAGER_INTERFACE: &'static str = "org.freedesktop.systemd1.Manager";
pub const UNIT_INTERFACE: &'static str = "org.freedesktop.systemd1.Unit";

/// The method that resolves a unit name to the unit's object path.
pub const GET_UNIT: &'static str = "GetUnit";

/// The error by which the manager reports that it knows no such unit.
pub const NO_SUCH_UNIT: &'static str = "org.freedesktop.systemd1.NoSuchUnit";

/// The daemon's own service name.
pub const DEFAULT_SERVICE: &'static str = "cloudflared";

pub open spec fn unit_of(service: Seq<char>) -> Seq<char> {
    service + ".service"@
}

/// The unit name of the service `service`.
pub fn unit_name(service: &str) -> (r: String)
    ensures
        r@ == unit_of(service@),
{
    let mut unit = String::from_str(service);
    unit.append(".service");
    proof {
        reveal_strlit(".service");
    }
    unit
}

/// Why a control-plane operation gave no result.
#[derive(Debug, Clone, PartialEq, Eq)]
pub enum ServiceError {
    /// No session with the service manager could be opened.
    ConnectionFailed { reason: String },
    /// The manager has no unit of this name.
    UnitNotFound { unit: String },
    /// The manager refused a request, or a reply could not be read.
    OperationFailed { reason: String },
}

/// The transition that a job asks for.
#[derive(Debug, Clone, Copy, PartialEq, Eq, Structural)]
pub enum JobVerb {
    Start,
    Stop,
}

/// How a new job treats jobs already queued for the same unit.
#[derive(Debug, Clone, Copy, PartialEq, Eq, Structural)]
pub enum JobMode {
    /// The new job supersedes a queued conflicting one.
    Replace,
}

pub open spec fn verb_method(verb: JobVerb) -> Seq<char> {
    match verb {
        JobVerb::Start => "StartUnit"@,
        JobVerb::Stop => "StopUnit"@,
    }
}

pub open spec fn mode_text(mode: JobMode) -> Seq<char> {
    match mode {
        JobMode::Replace => "replace"@,
    }
}

impl JobMode {
    /// The mode as the manager spells it.
    pub fn as_str(&self) -> (r: &'static str)
        ensures
            r@ == mode_text(*self),
    {
        proof {
            reveal_strlit("replace");
        }
        match self {
            JobMode::Replace => "replace",
        }
    }
}

/// A request to the manager to start or stop one unit.
#[derive(Debug, Clone, PartialEq, Eq)]
pub struct UnitJob {
    pub verb: JobVerb,
    pub unit: String,
    pub mode: JobMode,
}

impl UnitJob {
    /// The manager method that carries the job.
    pub fn method(&self) -> (r: &'static str)
        ensures
            r@ == verb_method(self.verb),
    {
        proof {
            reveal_strlit("StartUnit");
            reveal_strlit("StopUnit");
        }
        match self.verb {
            JobVerb::Start => "StartUnit",
            JobVerb::Stop => "StopUnit",
        }
    }
}

/// The job that starts the unit of `service`, replacing conflicting queued jobs.
pub fn start_job(service: &str) -> (r: UnitJob)
    ensures
        r.verb == JobVerb::Start,
        r.unit@ == unit_of(service@),
        r.mode == JobMode::Replace,
{
    UnitJob { verb: JobVerb::Start, unit: unit_name(service), mode: JobMode::Replace }
}

/// The job that stops the unit of `service`, replacing conflicting queued jobs.
pub fn stop_job(service: &str) -> (r: UnitJob)
    ensures
        r.verb == JobVerb::Stop,
        r.unit@ == unit_of(service@),
        r.mode == JobMode::Replace,
{
    UnitJob { verb: JobVerb::Stop, unit: unit_name(service), mode: JobMode::Replace }
}

/// What a job request came to, given the manager's reply: an acknowledgement,
/// or the reason it was refused.
pub fn job_outcome(reply: Result<(), String>) -> (r: Result<(), ServiceError>)
    ensures
        reply is Ok ==> r is Ok,
        reply matches Err(reason) ==> r == Err::<(), ServiceError>(
            ServiceError::OperationFailed { reason },
        ),
{
    match reply {
        Ok(()) => Ok(()),
        Err(reason) => Err(ServiceError::OperationFailed { reason }),
    }
}

/// A snapshot of a unit's three state dimensions, each as the manager gave it.
#[derive(Debug, Clone, PartialEq, Eq)]
pub struct ServiceStatus {
    pub service: String,
    pub load_state: String,
    pub active_state: String,
    pub sub_state: String,
}

pub open spec fn status_text(s: ServiceStatus) -> Seq<char> {
    "Service: "@ + s.service@ + "\nLoaded: "@ + s.load_state@ + "\nActive: "@ + s.active_state@
        + " ("@ + s.sub_state@ + ")"@
}

impl ServiceStatus {
    /// The snapshot as three lines of text.
    pub fn render(&self) -> (r: String)
        ensures
            r@ == status_text(*self),
    {
        let mut text = String::from_str("Service: ");
        text.append(self.service.as_str());
        text.append("\nLoaded: ");
        text.append(self.load_state.as_str());
        text.append("\nActive: ");
        text.append(self.active_state.as_str());
        text.append(" (");
        text.append(self.sub_state.as_str());
        text.append(")");
        proof {
            reveal_strlit("Service: ");
            reveal_strlit("\nLoaded: ");
            reveal_strlit("\nActive: ");
            reveal_strlit(" (");
            reveal_strlit(")");
        }
        text
    }
}

/// A property of a unit object.
#[derive(Debug, Clone, Copy, PartialEq, Eq, Structural)]
pub enum UnitProperty {
    ActiveState,
    LoadState,
    SubState,
}

pub open spec fn property_text(p: UnitProperty) -> Seq<char> {
    match p {
        UnitProperty::ActiveState => "ActiveState"@,
        UnitProperty::LoadState => "LoadState"@,
        UnitProperty::SubState => "SubState"@,
    }
}

impl UnitProperty {
    /// The property's name on the unit interface.
    pub fn name(&self) -> (r: &'static str)
        ensures
            r@ == property_text(*self),
    {
        proof {
            reveal_strlit("ActiveState");
            reveal_strlit("LoadState");
            reveal_strlit("SubState");
        }
        match self {
            UnitProperty::ActiveState => "ActiveState",
            UnitProperty::LoadState => "LoadState",
            UnitProperty::SubState => "SubState",
        }
    }
}

/// A reply of the manager, as handed to a status query.
#[derive(Debug, Clone, PartialEq, Eq)]
pub enum StatusEvent {
    /// The object path that a unit name resolved to.
    UnitPath(String),
    /// The string value of a property.
    Value(String),
    /// The call failed with this error name and message.
    CallFailed { error_name: String, message: String },
}

/// What a status query asks for next, or its result.
#[derive(Debug, PartialEq, Eq)]
pub enum StatusAction {
    /// Resolve the unit name to its object path.
    GetUnit { unit: String },
    /// Read one property of the unit object at `path`.
    GetProperty { path: String, property: UnitProperty },
    /// The query is over.
    Finish(Result<ServiceStatus, ServiceError>),
}

/// Where a status query stands.
#[derive(Debug, Clone, Copy, PartialEq, Eq, Structural)]
pub enum StatusStep {
    Resolve,
    ReadActive,
    ReadLoad,
    ReadSub,
    Finished,
}

/// A status query in progress: the unit under query and what has been read.
#[derive(Debug, Clone, PartialEq, Eq)]
pub struct StatusQuery {
    pub service: String,
    pub unit: String,
    pub path: Option<String>,
    pub active: Option<String>,
    pub load: Option<String>,
    pub step: StatusStep,
}

/// The reason given when a reply does not answer the request that was made.
pub open spec fn unexpected_reply() -> Seq<char> {
    "unexpected reply from the service manager"@
}

/// The reply `event` answers the request that a query at `step` has made.
pub open spec fn reply_fits(step: StatusStep, event: StatusEvent) -> bool {
    match event {
        StatusEvent::UnitPath(_) => step == StatusStep::Resolve,
        StatusEvent::Value(_) => step == StatusStep::ReadActive || step == StatusStep::ReadLoad
            || step == StatusStep::ReadSub,
        StatusEvent::CallFailed { .. } => step != StatusStep::Finished,
    }
}

/// One step of a status query: `before` takes the reply `event`, becomes
/// `after`, and asks for `action` next. The properties are read in the order
/// active, load, sub. A failed request ends the query with an error, as does a
/// reply that does not fit the request; a status comes only from the last read,
/// and holds what the three reads returned.
pub open spec fn advances(
    before: StatusQuery,
    event: StatusEvent,
    after: StatusQuery,
    action: StatusAction,
) -> bool {
    &&& after.wf()
    &&& after.service == before.service
    &&& after.unit == before.unit
    &&& (action is Finish <==> after.step == StatusStep::Finished)
    &&& (event matches StatusEvent::UnitPath(p) ==> before.step == StatusStep::Resolve ==> {
        &&& after.step == StatusStep::ReadActive
        &&& after.path == Some(p)
        &&& action == (StatusAction::GetProperty {
            path: p,
            property: UnitProperty::ActiveState,
        })
    })
    &&& (event matches StatusEvent::Value(v) ==> before.step == StatusStep::ReadActive ==> {
        &&& after.step == StatusStep::ReadLoad
        &&& after.active == Some(v)
        &&& after.path == before.path
        &&& action == (StatusAction::GetProperty {
            path: before.path->Some_0,
            property: UnitProperty::LoadState,
        })
    })
    &&& (event matches StatusEvent::Value(v) ==> before.step == StatusStep::ReadLoad ==> {
        &&& after.step == StatusStep::ReadSub
        &&& after.load == Some(v)
        &&& after.active == before.active
        &&& after.path == before.path
        &&& action == (StatusAction::GetProperty {
            path: before.path->Some_0,
            property: UnitProperty::SubState,
        })
    })
    &&& (event matches StatusEvent::Value(v) ==> before.step == StatusStep::ReadSub ==> action
        == StatusAction::Finish(
        Ok(
            ServiceStatus {
                service: before.service,
                load_state: before.load->Some_0,
                active_state: before.active->Some_0,
                sub_state: v,
            },
        ),
    ))
    &&& (event matches StatusEvent::CallFailed { error_name, message } ==> action
        == StatusAction::Finish(
        if before.step == StatusStep::Resolve && error_name@ == NO_SUCH_UNIT@ {
            Err(ServiceError::UnitNotFound { unit: before.unit })
        } else {
            Err(ServiceError::OperationFailed { reason: message })
        },
    ))
    &&& (!reply_fits(before.step, event) ==> (action matches StatusAction::Finish(
        Err(ServiceError::OperationFailed { reason }),
    ) && reason@ == unexpected_reply()))
    &&& (action matches StatusAction::Finish(Ok(s)) ==> {
        &&& before.step == StatusStep::ReadSub
        &&& event == StatusEvent::Value(s.sub_state)
        &&& before.active == Some(s.active_state)
        &&& before.load == Some(s.load_state)
        &&& s.service == before.service
    })
    &&& ((action matches StatusAction::Finish(Err(ServiceError::UnitNotFound { .. })))
        <==> (event matches StatusEvent::CallFailed { error_name, .. } && before.step
        == StatusStep::Resolve && error_name@ == NO_SUCH_UNIT@))
}

impl StatusQuery {
    /// What has been read agrees with where the query stands.
    pub open spec fn wf(&self) -> bool {
        &&& self.unit@ == unit_of(self.service@)
        &&& match self.step {
            StatusStep::Resolve => self.path is None && self.active is None && self.load is None,
            StatusStep::ReadActive => self.path is Some && self.active is None && self.load is None,
            StatusStep::ReadLoad => self.path is Some && self.active is Some && self.load is None,
            StatusStep::ReadSub => self.path is Some && self.active is Some && self.load is Some,
            StatusStep::Finished => true,
        }
    }

    /// A fresh query for the unit of `service`, and its first request: the
    /// resolution of the unit name.
    pub fn start(service: &str) -> (r: (StatusQuery, StatusAction))
        ensures
            r.0.wf(),
            r.0.step == StatusStep::Resolve,
            r.0.service@ == service@,
            r.1 == (StatusAction::GetUnit { unit: r.0.unit }),
    {
        let unit = unit_name(service);
        let query = StatusQuery {
            service: String::from_str(service),
            unit: unit.clone(),
            path: None,
            active: None,
            load: None,
            step: StatusStep::Resolve,
        };
        (query, StatusAction::GetUnit { unit })
    }

    /// The query has produced its result and takes no further reply.
    pub fn is_finished(&self) -> (r: bool)
        ensures
            r == (self.step == StatusStep::Finished),
    {
        self.step == StatusStep::Finished
    }

    /// Takes the reply to the last request and decides the next one, as
    /// `advances` describes.
    pub fn advance(&mut self, event: StatusEvent) -> (action: StatusAction)
        requires
            old(self).wf(),
            old(self).step != StatusStep::Finished,
        ensures
            advances(*old(self), event, *final(self), action),
    {
        proof {
            reveal_strlit("unexpected reply from the service manager");
        }
        let step = self.step;
        match event {
            StatusEvent::CallFailed { error_name, message } => {
                self.step = StatusStep::Finished;
                if step == StatusStep::Resolve && same_text(error_name.as_str(), NO_SUCH_UNIT) {
                    StatusAction::Finish(Err(ServiceError::UnitNotFound { unit: self.unit.clone() }))
                } else {
                    StatusAction::Finish(Err(ServiceError::OperationFailed { reason: message }))
                }
            },
            StatusEvent::UnitPath(p) => {
                if step == StatusStep::Resolve {
                    self.path = Some(p.clone());
                    self.step = StatusStep::ReadActive;
                    StatusAction::GetProperty { path: p, property: UnitProperty::ActiveState }
                } else {
                    self.unexpected()
                }
            },
            StatusEvent::Value(v) => {
                let path = match &self.path {
                    Some(p) => p.clone(),
                    None => String::new(),
                };
                match step {
                    StatusStep::ReadActive => {
                        self.active = Some(v);
                        self.step = StatusStep::ReadLoad;
                        StatusAction::GetProperty { path, property: UnitProperty::LoadState }
                    },
                    StatusStep::ReadLoad => {
                        self.load = Some(v);
                        self.step = StatusStep::ReadSub;
                        StatusAction::GetProperty { path, property: UnitProperty::SubState }
                    },
                    StatusStep::ReadSub => {
                        let active = match &self.active {
                            Some(a) => a.clone(),
                            None => String::new(),
                        };
                        let load = match &self.load {
                            Some(l) => l.clone(),
                            None => String::new(),
                        };
                        self.step = StatusStep::Finished;
                        StatusAction::Finish(
                            Ok(
                                ServiceStatus {
                                    service: self.service.clone(),
                                    load_state: load,
                                    active_state: active,
                                    sub_state: v,
                                },
                            ),
                        )
                    },
                    _ => self.unexpected(),
                }
            },
        }
    }

    /// Ends the query on a reply that does not answer its request.
    fn unexpected(&mut self) -> (action: StatusAction)
        requires
            old(self).wf(),
        ensures
            *final(self) == (StatusQuery { step: StatusStep::Finished, ..*old(self) }),
            action matches StatusAction::Finish(Err(ServiceError::OperationFailed { reason }))
                && reason@ == unexpected_reply(),
    {
        self.step = StatusStep::Finished;
        StatusAction::Finish(
            Err(
                ServiceError::OperationFailed {
                    reason: String::from_str("unexpected reply from the service manager"),
                },
            ),
        )
    }
}

/// Where a fresh query stands after `k` replies, as long as none ended it.
pub open spec fn step_after(k: int) -> StatusStep {
    if k == 0 {
        StatusStep::Resolve
    } else if k == 1 {
        StatusStep::ReadActive
    } else if k == 2 {
        StatusStep::ReadLoad
    } else if k == 3 {
        StatusStep::ReadSub
    } else {
        StatusStep::Finished
    }
}

/// `queries`, `events` and `actions` record a run of a status query: it starts
/// fresh, and each reply in turn is taken by a query that has not finished.
pub open spec fn is_run(
    queries: Seq<StatusQuery>,
    events: Seq<StatusEvent>,
    actions: Seq<StatusAction>,
) -> bool {
    &&& queries.len() == events.len() + 1
    &&& actions.len() == events.len()
    &&& queries[0].wf()
    &&& queries[0].step == StatusStep::Resolve
    &&& forall|k: int|
        #![trigger events[k]]
        0 <= k < events.len() ==> queries[k].step != StatusStep::Finished && advances(
            queries[k],
            events[k],
            queries[k + 1],
            actions[k],
        )
}

/// Before its `k`-th reply, an unfinished run has taken the unit's path and
/// then property values, and holds the values read so far.
proof fn lemma_run_prefix(
    queries: Seq<StatusQuery>,
    events: Seq<StatusEvent>,
    actions: Seq<StatusAction>,
    k: int,
)
    requires
        is_run(queries, events, actions),
        0 <= k < events.len(),
    ensures
        queries[k].step == step_after(k),
        queries[k].service == queries[0].service,
        k >= 1 ==> events[0] is UnitPath,
        k >= 2 ==> events[1] is Value && queries[k].active == Some(events[1]->Value_0),
        k >= 3 ==> events[2] is Value && queries[k].load == Some(events[2]->Value_0),
    decreases k,
{
    if k > 0 {
        let j = k - 1;
        lemma_run_prefix(queries, events, actions, j);
        assert(advances(queries[j], events[j], queries[k], actions[j]));
        assert(advances(queries[k], events[k], queries[k + 1], actions[k]));
    }
}

/// A status query is all-or-nothing: a run that ends with a status took
/// exactly four replies, the unit's path and then the active, load and sub
/// states, and the status holds those three values as they were read.
pub proof fn lemma_status_needs_all_reads(
    queries: Seq<StatusQuery>,
    events: Seq<StatusEvent>,
    actions: Seq<StatusAction>,
    s: ServiceStatus,
)
    requires
        is_run(queries, events, actions),
        events.len() > 0,
        actions.last() == StatusAction::Finish(Ok(s)),
    ensures
        events.len() == 4,
        events[0] is UnitPath,
        events[1] == StatusEvent::Value(s.active_state),
        events[2] == StatusEvent::Value(s.load_state),
        events[3] == StatusEvent::Value(s.sub_state),
        s.service == queries[0].service,
{
    let last = events.len() - 1;
    lemma_run_prefix(queries, events, actions, last);
    assert(advances(queries[last], events[last], queries[last + 1], actions[last]));
}

} // verus!
