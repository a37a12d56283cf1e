//! The traversal of the platform's devices and their property stores, as a
//! protocol between this library and a driver.
//!
//! The library decides what is asked of the platform and what becomes of each
//! answer; the driver asks and reports. A traversal hands out one request at
//! a time, and each reply moves it to its next state and request. A failure
//! to open the service, to list the devices or to open one of them ends the
//! traversal. A failure that concerns one property, one controller or one
//! topology value is written into the record and the traversal goes on.

use vstd::prelude::*;
use crate::policy::{PolicyView, TruncationPolicy};
use crate::record::{
    collect_property, controller_placeholder, instance_id_key, optional_text, placeholder,
    property_views, resolved, usb_topology_key, AudioDevice, DeviceProperty, DeviceView,
    PropertyKey, PropertyReading, PropertyView, ReadingView, device_views,
};

verus! {

/// Where a traversal stands: what reply it waits for, or how it ended.
#[derive(Clone, Copy, Debug, PartialEq, Eq, Structural)]
pub enum Phase {
    /// Waiting for the service to open.
    AwaitService,
    /// Waiting for the number of active devices.
    AwaitCount,
    /// Waiting for a device to open.
    AwaitDevice,
    /// Waiting for the reading of one slot of the open device's store.
    AwaitProperty,
    /// Waiting for the controller of the open device.
    AwaitController,
    /// Waiting for the topology value of the open device.
    AwaitTopology,
    /// Every device has its record.
    Finished,
    /// The traversal was given up.
    Failed,
}

/// What the driver is to do next.
#[derive(Clone, Debug, PartialEq, Eq)]
pub enum Request {
    /// Open the platform's audio service.
    OpenService,
    /// Count the active endpoints, of every direction of flow.
    ListDevices,
    /// Open the device at `index`: its identifier, and the number of slots
    /// of its property store.
    OpenDevice { index: u32 },
    /// Read the slot `slot` of the store of the device at `device`.
    ReadProperty { device: u32, slot: u32 },
    /// Ask the device service for the device named by `query`, and read the
    /// value under `key` from its store.
    FindController { device: u32, query: Vec<u16>, key: PropertyKey },
    /// Read the value under `key` from the store of the device at `device`.
    ReadTopology { device: u32, key: PropertyKey },
    /// Nothing: the traversal is finished, and its report can be taken.
    Finished,
    /// Nothing: the traversal has failed.
    Failed,
}

/// A `Request` as plain values.
pub enum RequestView {
    OpenService,
    ListDevices,
    OpenDevice { index: u32 },
    ReadProperty { device: u32, slot: u32 },
    FindController { device: u32, query: Seq<u16>, key: PropertyKey },
    ReadTopology { device: u32, key: PropertyKey },
    Finished,
    Failed,
}

impl View for Request {
    type V = RequestView;

    open spec fn view(&self) -> RequestView {
        match *self {
            Request::OpenService => RequestView::OpenService,
            Request::ListDevices => RequestView::ListDevices,
            Request::OpenDevice { index } => RequestView::OpenDevice { index },
            Request::ReadProperty { device, slot } => RequestView::ReadProperty { device, slot },
            Request::FindController { device, query, key } => RequestView::FindController {
                device,
                query: query@,
                key,
            },
            Request::ReadTopology { device, key } => RequestView::ReadTopology { device, key },
            Request::Finished => RequestView::Finished,
            Request::Failed => RequestView::Failed,
        }
    }
}

/// What the driver reports of the request it was handed.
#[derive(Clone, Debug, PartialEq, Eq)]
pub enum Reply {
    /// The service is open.
    ServiceOpened,
    /// The number of active devices.
    DeviceCount(u32),
    /// A device is open: its identifier and the number of slots of its
    /// property store.
    DeviceOpened { id: String, property_count: u32 },
    /// What one slot of a property store holds.
    Property(PropertyReading),
    /// The instance identifier of the controller that was asked for.
    Controller(String),
    /// The topology value of the device, where it has one.
    Topology(Option<String>),
    /// The request could not be carried out, for the reason given.
    Failure(String),
}

/// A `Reply` as plain values.
pub enum ReplyView {
    ServiceOpened,
    DeviceCount(u32),
    DeviceOpened { id: Seq<char>, property_count: u32 },
    Property(ReadingView),
    Controller(Seq<char>),
    Topology(Option<Seq<char>>),
    Failure(Seq<char>),
}

impl View for Reply {
    type V = ReplyView;

    open spec fn view(&self) -> ReplyView {
        match *self {
            Reply::ServiceOpened => ReplyView::ServiceOpened,
            Reply::DeviceCount(count) => ReplyView::DeviceCount(count),
            Reply::DeviceOpened { id, property_count } => ReplyView::DeviceOpened {
                id: id@,
                property_count,
            },
            Reply::Property(reading) => ReplyView::Property(reading@),
            Reply::Controller(identifier) => ReplyView::Controller(identifier@),
            Reply::Topology(value) => ReplyView::Topology(optional_text(value)),
            Reply::Failure(reason) => ReplyView::Failure(reason@),
        }
    }
}

/// Why a traversal has no report.
#[derive(Clone, Debug, PartialEq, Eq)]
pub enum TraversalError {
    /// The platform's audio service could not be opened, or its devices
    /// could not be listed or opened.
    ServiceUnavailable { reason: String },
    /// The driver replied with something that was not asked for.
    UnexpectedReply,
    /// The traversal has not come to its end.
    Unfinished,
}

/// A `TraversalError` as plain values.
pub enum ErrorView {
    ServiceUnavailable { reason: Seq<char> },
    UnexpectedReply,
    Unfinished,
}

impl View for TraversalError {
    type V = ErrorView;

    open spec fn view(&self) -> ErrorView {
        match *self {
            TraversalError::ServiceUnavailable { reason } => ErrorView::ServiceUnavailable {
                reason: reason@,
            },
            TraversalError::UnexpectedReply => ErrorView::UnexpectedReply,
            TraversalError::Unfinished => ErrorView::Unfinished,
        }
    }
}

/// The state of a traversal as plain values.
pub struct TraversalView {
    /// The policy by which controller identifiers are derived.
    pub policy: PolicyView,
    /// What the traversal waits for.
    pub phase: Phase,
    /// The number of devices that the platform reported.
    pub device_count: u32,
    /// The records of the devices that are done, in the platform's order.
    pub records: Seq<DeviceView>,
    /// The identifier of the open device.
    pub current_id: Seq<char>,
    /// The number of slots of the open device's store.
    pub property_count: u32,
    /// The properties of the open device that are resolved.
    pub properties: Seq<PropertyView>,
    /// The controller field of the open device.
    pub controller: Seq<char>,
    /// Why the traversal failed, where it did.
    pub failure: Option<ErrorView>,
}

/// The state in which a traversal begins.
pub open spec fn initial(policy: PolicyView) -> TraversalView {
    TraversalView {
        policy,
        phase: Phase::AwaitService,
        device_count: 0,
        records: Seq::empty(),
        current_id: Seq::empty(),
        property_count: 0,
        properties: Seq::empty(),
        controller: Seq::empty(),
        failure: None,
    }
}

/// The property that stands for a slot which could not be read at all.
pub open spec fn unread_property() -> PropertyView {
    PropertyView {
        key: PropertyKey { fmtid: 0, pid: 0 },
        name: Seq::empty(),
        value: Seq::empty(),
        guid: Seq::empty(),
        description: Seq::empty(),
    }
}

/// Turns to the next device that has no record yet, or finishes.
pub open spec fn next_device(state: TraversalView) -> (TraversalView, RequestView) {
    if state.records.len() < state.device_count {
        (
            TraversalView { phase: Phase::AwaitDevice, ..state },
            RequestView::OpenDevice { index: state.records.len() as u32 },
        )
    } else {
        (TraversalView { phase: Phase::Finished, ..state }, RequestView::Finished)
    }
}

/// Turns to the next slot of the open device's store, or, behind the last
/// slot, to the device's controller.
pub open spec fn next_property(state: TraversalView) -> (TraversalView, RequestView) {
    if state.properties.len() < state.property_count {
        (
            TraversalView { phase: Phase::AwaitProperty, ..state },
            RequestView::ReadProperty {
                device: state.records.len() as u32,
                slot: state.properties.len() as u32,
            },
        )
    } else {
        (
            TraversalView { phase: Phase::AwaitController, ..state },
            RequestView::FindController {
                device: state.records.len() as u32,
                query: state.policy.query(state.current_id),
                key: PropertyKey { fmtid: 0x78C34FC8_104A_4ACA_9EA4_524D52996E57, pid: 256 },
            },
        )
    }
}

/// Gives the traversal up.
pub open spec fn failed(state: TraversalView, error: ErrorView) -> (TraversalView, RequestView) {
    (TraversalView { phase: Phase::Failed, failure: Some(error), ..state }, RequestView::Failed)
}

/// Adds a property to the open device and turns to the next slot.
pub open spec fn with_property(state: TraversalView, property: PropertyView) -> (
    TraversalView,
    RequestView,
) {
    next_property(TraversalView { properties: state.properties.push(property), ..state })
}

/// Sets the controller field of the open device and turns to its topology
/// value.
pub open spec fn with_controller(state: TraversalView, controller: Seq<char>) -> (
    TraversalView,
    RequestView,
) {
    (
        TraversalView { phase: Phase::AwaitTopology, controller, ..state },
        RequestView::ReadTopology {
            device: state.records.len() as u32,
            key: PropertyKey { fmtid: 0xB3F8FA53_0004_438E_9003_51A46E139BFC, pid: 39 },
        },
    )
}

/// The record of the open device, given its topology value.
pub open spec fn open_record(state: TraversalView, topology: Option<Seq<char>>) -> DeviceView {
    DeviceView {
        id: state.current_id,
        audio_controller_id: state.controller,
        audio_topology_id: topology,
        properties: state.properties,
    }
}

/// Closes the open device with its topology value and turns to the next
/// device.
pub open spec fn with_topology(state: TraversalView, topology: Option<Seq<char>>) -> (
    TraversalView,
    RequestView,
) {
    next_device(
        TraversalView {
            records: state.records.push(open_record(state, topology)),
            current_id: Seq::empty(),
            property_count: 0,
            properties: Seq::empty(),
            controller: Seq::empty(),
            ..state
        },
    )
}

/// The state and the request that follow when `reply` arrives in `state`.
pub open spec fn step_spec(state: TraversalView, reply: ReplyView) -> (TraversalView, RequestView) {
    match state.phase {
        Phase::Finished => (state, RequestView::Finished),
        Phase::Failed => (state, RequestView::Failed),
        Phase::AwaitService => match reply {
            ReplyView::ServiceOpened => (
                TraversalView { phase: Phase::AwaitCount, ..state },
                RequestView::ListDevices,
            ),
            ReplyView::Failure(reason) => failed(state, ErrorView::ServiceUnavailable { reason }),
            _ => failed(state, ErrorView::UnexpectedReply),
        },
        Phase::AwaitCount => match reply {
            ReplyView::DeviceCount(count) => next_device(
                TraversalView { device_count: count, ..state },
            ),
            ReplyView::Failure(reason) => failed(state, ErrorView::ServiceUnavailable { reason }),
            _ => failed(state, ErrorView::UnexpectedReply),
        },
        Phase::AwaitDevice => match reply {
            ReplyView::DeviceOpened { id, property_count } => next_property(
                TraversalView {
                    current_id: id,
                    property_count,
                    properties: Seq::empty(),
                    ..state
                },
            ),
            ReplyView::Failure(reason) => failed(state, ErrorView::ServiceUnavailable { reason }),
            _ => failed(state, ErrorView::UnexpectedReply),
        },
        Phase::AwaitProperty => match reply {
            ReplyView::Property(reading) => with_property(state, resolved(reading)),
            ReplyView::Failure(_) => with_property(state, unread_property()),
            _ => failed(state, ErrorView::UnexpectedReply),
        },
        Phase::AwaitController => match reply {
            ReplyView::Controller(identifier) => with_controller(state, identifier),
            ReplyView::Failure(reason) => with_controller(state, placeholder(reason)),
            _ => failed(state, ErrorView::UnexpectedReply),
        },
        Phase::AwaitTopology => match reply {
            ReplyView::Topology(value) => with_topology(state, value),
            ReplyView::Failure(_) => with_topology(state, None),
            _ => failed(state, ErrorView::UnexpectedReply),
        },
    }
}

/// What a traversal has to show in `state`: the records when it is
/// finished, and else the reason why there are none.
pub open spec fn report_spec(state: TraversalView) -> Result<Seq<DeviceView>, ErrorView> {
    match state.phase {
        Phase::Finished => Ok(state.records),
        Phase::Failed => match state.failure {
            Some(error) => Err(error),
            None => Err(ErrorView::Unfinished),
        },
        _ => Err(ErrorView::Unfinished),
    }
}

/// A traversal under way: the policy it follows, the records it has made
/// and the device it is working on.
#[derive(Debug)]
pub struct Traversal {
    policy: TruncationPolicy,
    phase: Phase,
    device_count: u32,
    records: Vec<AudioDevice>,
    current_id: String,
    property_count: u32,
    properties: Vec<DeviceProperty>,
    controller: String,
    failure: Option<TraversalError>,
}

/// The error in `failure`, if any, as plain values.
pub open spec fn optional_error(failure: Option<TraversalError>) -> Option<ErrorView> {
    match failure {
        Some(error) => Some(error@),
        None => None,
    }
}

impl View for Traversal {
    type V = TraversalView;

    closed spec fn view(&self) -> TraversalView {
        TraversalView {
            policy: self.policy@,
            phase: self.phase,
            device_count: self.device_count,
            records: device_views(self.records@),
            current_id: self.current_id@,
            property_count: self.property_count,
            properties: property_views(self.properties@),
            controller: self.controller@,
            failure: optional_error(self.failure),
        }
    }
}

impl Traversal {
    /// Begins a traversal that derives controller identifiers by `policy`.
    /// Its first request is to open the service.
    pub fn begin(policy: TruncationPolicy) -> (start: (Traversal, Request))
        ensures
            start.0@ == initial(policy@),
            start.1@ == RequestView::OpenService,
    {
        let state = Traversal {
            policy,
            phase: Phase::AwaitService,
            device_count: 0,
            records: Vec::new(),
            current_id: String::new(),
            property_count: 0,
            properties: Vec::new(),
            controller: String::new(),
            failure: None,
        };
        assert(state@.records =~= Seq::empty());
        assert(state@.properties =~= Seq::empty());
        (state, Request::OpenService)
    }

    /// What the traversal waits for, or how it ended.
    pub fn phase(&self) -> (phase: Phase)
        ensures
            phase == self@.phase,
    {
        self.phase
    }

    /// The number of devices that have their record.
    pub fn records_done(&self) -> (done: usize)
        ensures
            done == self@.records.len(),
    {
        self.records.len()
    }

    /// Gives the traversal up for the reason `error`.
    fn give_up(self, error: TraversalError) -> (next: (Traversal, Request))
        ensures
            (next.0@, next.1@) == failed(self@, error@),
    {
        let mut state = self;
        state.phase = Phase::Failed;
        state.failure = Some(error);
        (state, Request::Failed)
    }

    /// Asks for the next device without a record, or finishes.
    fn turn_to_device(self) -> (next: (Traversal, Request))
        ensures
            (next.0@, next.1@) == next_device(self@),
    {
        let mut state = self;
        let done: usize = state.records.len();
        if done < state.device_count as usize {
            state.phase = Phase::AwaitDevice;
            (state, Request::OpenDevice { index: done as u32 })
        } else {
            state.phase = Phase::Finished;
            (state, Request::Finished)
        }
    }

    /// Asks for the next slot of the open device's store, or, behind the
    /// last slot, for the device's controller.
    fn turn_to_property(self) -> (next: (Traversal, Request))
        ensures
            (next.0@, next.1@) == next_property(self@),
    {
        let mut state = self;
        let device: u32 = state.records.len() as u32;
        let resolved_slots: usize = state.properties.len();
        if resolved_slots < state.property_count as usize {
            state.phase = Phase::AwaitProperty;
            (state, Request::ReadProperty { device, slot: resolved_slots as u32 })
        } else {
            let query: Vec<u16> = state.policy.controller_query(state.current_id.as_str());
            state.phase = Phase::AwaitController;
            (state, Request::FindController { device, query, key: instance_id_key() })
        }
    }

    /// Adds `property` to the open device and turns to the next slot.
    fn add_property(self, property: DeviceProperty) -> (next: (Traversal, Request))
        ensures
            (next.0@, next.1@) == with_property(self@, property@),
    {
        let mut state = self;
        state.properties.push(property);
        assert(property_views(state.properties@) =~= property_views(self.properties@).push(
            property@,
        ));
        state.turn_to_property()
    }

    /// Sets the controller field of the open device and asks for its
    /// topology value.
    fn set_controller(self, controller: String) -> (next: (Traversal, Request))
        ensures
            (next.0@, next.1@) == with_controller(self@, controller@),
    {
        let mut state = self;
        let device: u32 = state.records.len() as u32;
        state.controller = controller;
        state.phase = Phase::AwaitTopology;
        (state, Request::ReadTopology { device, key: usb_topology_key() })
    }

    /// Makes the record of the open device and turns to the next device.
    fn close_device(self, topology: Option<String>) -> (next: (Traversal, Request))
        ensures
            (next.0@, next.1@) == with_topology(self@, optional_text(topology)),
    {
        let Traversal {
            policy,
            phase,
            device_count,
            mut records,
            current_id,
            property_count,
            properties,
            controller,
            failure,
        } = self;
        let record = AudioDevice {
            id: current_id,
            audio_controller_id: controller,
            audio_topology_id: topology,
            properties,
        };
        assert(record@ == open_record(self@, optional_text(topology)));
        records.push(record);
        assert(device_views(records@) =~= device_views(self.records@).push(record@));
        let state = Traversal {
            policy,
            phase,
            device_count,
            records,
            current_id: String::new(),
            property_count: 0,
            properties: Vec::new(),
            controller: String::new(),
            failure,
        };
        assert(state@.properties =~= Seq::empty());
        state.turn_to_device()
    }

    /// Takes the driver's reply to the last request, and hands out the next
    /// state and the next request.
    pub fn step(self, reply: Reply) -> (next: (Traversal, Request))
        ensures
            (next.0@, next.1@) == step_spec(self@, reply@),
    {
        match self.phase {
            Phase::Finished => (self, Request::Finished),
            Phase::Failed => (self, Request::Failed),
            Phase::AwaitService => match reply {
                Reply::ServiceOpened => {
                    let mut state = self;
                    state.phase = Phase::AwaitCount;
                    (state, Request::ListDevices)
                },
                Reply::Failure(reason) => self.give_up(
                    TraversalError::ServiceUnavailable { reason },
                ),
                _ => self.give_up(TraversalError::UnexpectedReply),
            },
            Phase::AwaitCount => match reply {
                Reply::DeviceCount(count) => {
                    let mut state = self;
                    state.device_count = count;
                    state.turn_to_device()
                },
                Reply::Failure(reason) => self.give_up(
                    TraversalError::ServiceUnavailable { reason },
                ),
                _ => self.give_up(TraversalError::UnexpectedReply),
            },
            Phase::AwaitDevice => match reply {
                Reply::DeviceOpened { id, property_count } => {
                    let mut state = self;
                    state.current_id = id;
                    state.property_count = property_count;
                    state.properties = Vec::new();
                    assert(state@.properties =~= Seq::empty());
                    state.turn_to_property()
                },
                Reply::Failure(reason) => self.give_up(
                    TraversalError::ServiceUnavailable { reason },
                ),
                _ => self.give_up(TraversalError::UnexpectedReply),
            },
            Phase::AwaitProperty => match reply {
                Reply::Property(reading) => {
                    let property = collect_property(&reading);
                    self.add_property(property)
                },
                Reply::Failure(_) => self.add_property(unread()),
                _ => self.give_up(TraversalError::UnexpectedReply),
            },
            Phase::AwaitController => match reply {
                Reply::Controller(identifier) => self.set_controller(identifier),
                Reply::Failure(reason) => {
                    let field = controller_placeholder(reason.as_str());
                    self.set_controller(field)
                },
                _ => self.give_up(TraversalError::UnexpectedReply),
            },
            Phase::AwaitTopology => match reply {
                Reply::Topology(value) => self.close_device(value),
                Reply::Failure(_) => self.close_device(None),
                _ => self.give_up(TraversalError::UnexpectedReply),
            },
        }
    }

    /// Ends the traversal: the records of all devices, in the platform's
    /// order, where it is finished; where it failed, the reason; and
    /// `Unfinished` where it is still under way.
    pub fn into_report(self) -> (report: Result<Vec<AudioDevice>, TraversalError>)
        ensures
            match report {
                Ok(records) => report_spec(self@) == Ok::<Seq<DeviceView>, ErrorView>(
                    device_views(records@),
                ),
                Err(error) => report_spec(self@) == Err::<Seq<DeviceView>, ErrorView>(error@),
            },
    {
        match self.phase {
            Phase::Finished => Ok(self.records),
            Phase::Failed => match self.failure {
                Some(error) => Err(error),
                None => Err(TraversalError::Unfinished),
            },
            _ => Err(TraversalError::Unfinished),
        }
    }
}

/// The property that stands for a slot which could not be read at all.
pub fn unread() -> (property: DeviceProperty)
    ensures
        property@ == unread_property(),
{
    DeviceProperty {
        key: PropertyKey { fmtid: 0, pid: 0 },
        name: String::new(),
        value: String::new(),
        guid: String::new(),
        description: String::new(),
    }
}

} // verus!
