//! A platform as a traversal sees it, and what a traversal makes of it.
//!
//! A snapshot says, for each active device, what the platform would answer.
//! A driver that reports those answers faithfully leads every traversal to
//! its end, and the report then holds one record for each device of the
//! snapshot, in the snapshot's order, whatever failed on the way.

use vstd::prelude::*;
use crate::policy::PolicyView;
use crate::record::{
    controller_text, placeholder, resolved, resolved_all, DeviceView, PropertyView, ReadingView,
};
use crate::traversal::{
    initial, next_device, next_property, report_spec, step_spec, with_property, ErrorView, Phase,
    ReplyView, TraversalView,
};

verus! {

/// What the platform answers about one device.
pub struct DeviceSnapshot {
    /// The identifier of the endpoint.
    pub id: Seq<char>,
    /// The readings of the slots of its property store, in their order.
    pub readings: Seq<ReadingView>,
    /// The instance identifier of the controller that the device service
    /// finds, or the reason why it finds none.
    pub controller: Result<Seq<char>, Seq<char>>,
    /// The topology value of the endpoint, where it has one.
    pub topology: Option<Seq<char>>,
}

/// The record that belongs to a device of a snapshot.
pub open spec fn record_of(device: DeviceSnapshot) -> DeviceView {
    DeviceView {
        id: device.id,
        audio_controller_id: controller_text(device.controller),
        audio_topology_id: device.topology,
        properties: resolved_all(device.readings),
    }
}

/// The records that belong to the devices of a snapshot, in their order.
pub open spec fn records_of(devices: Seq<DeviceSnapshot>) -> Seq<DeviceView> {
    devices.map_values(|device: DeviceSnapshot| record_of(device))
}

/// The reply of a faithful driver to the request for a device's controller.
pub open spec fn controller_reply(outcome: Result<Seq<char>, Seq<char>>) -> ReplyView {
    match outcome {
        Ok(identifier) => ReplyView::Controller(identifier),
        Err(reason) => ReplyView::Failure(reason),
    }
}

/// The replies of a faithful driver to the requests for the slots of one
/// store.
pub open spec fn property_replies(readings: Seq<ReadingView>) -> Seq<ReplyView> {
    readings.map_values(|reading: ReadingView| ReplyView::Property(reading))
}

/// The replies of a faithful driver to the requests that concern one device.
pub open spec fn device_replies(device: DeviceSnapshot) -> Seq<ReplyView> {
    seq![ReplyView::DeviceOpened { id: device.id, property_count: device.readings.len() as u32 }]
        + property_replies(device.readings) + seq![
        controller_reply(device.controller),
        ReplyView::Topology(device.topology),
    ]
}

/// The replies of a faithful driver to the requests that concern the
/// devices of a snapshot, one device after the other.
pub open spec fn devices_replies(devices: Seq<DeviceSnapshot>) -> Seq<ReplyView>
    decreases devices.len(),
{
    if devices.len() == 0 {
        Seq::empty()
    } else {
        device_replies(devices[0]) + devices_replies(devices.drop_first())
    }
}

/// All replies of a faithful driver on a platform whose service opens and
/// whose active devices are those of the snapshot.
pub open spec fn faithful_replies(devices: Seq<DeviceSnapshot>) -> Seq<ReplyView> {
    seq![ReplyView::ServiceOpened, ReplyView::DeviceCount(devices.len() as u32)]
        + devices_replies(devices)
}

/// A snapshot that a traversal can count: its devices and the slots of each
/// store are no more than a `u32` holds.
pub open spec fn countable(devices: Seq<DeviceSnapshot>) -> bool {
    &&& devices.len() <= u32::MAX
    &&& forall|i: int| 0 <= i < devices.len() ==> (#[trigger] devices[i]).readings.len() <= u32::MAX
}

/// The state that a traversal reaches from `state` when the replies arrive
/// one after the other.
pub open spec fn run(state: TraversalView, replies: Seq<ReplyView>) -> TraversalView
    decreases replies.len(),
{
    if replies.len() == 0 {
        state
    } else {
        run(step_spec(state, replies[0]).0, replies.drop_first())
    }
}

/// Running through two runs of replies is running through the first and
/// then through the second.
pub proof fn lemma_run_concat(state: TraversalView, first: Seq<ReplyView>, second: Seq<ReplyView>)
    ensures
        run(state, first + second) == run(run(state, first), second),
    decreases first.len(),
{
    if first.len() == 0 {
        assert(first + second =~= second);
    } else {
        assert((first + second)[0] == first[0]);
        assert((first + second).drop_first() =~= first.drop_first() + second);
        lemma_run_concat(step_spec(state, first[0]).0, first.drop_first(), second);
    }
}

/// The state of a traversal that has resolved every slot of the open
/// device's store and turns to its controller.
pub open spec fn slots_done(state: TraversalView, properties: Seq<PropertyView>) -> TraversalView {
    TraversalView { phase: Phase::AwaitController, properties, ..state }
}

/// From a state that waits for a slot, the readings of the remaining slots
/// lead to the state that waits for the controller, with one property more
/// for each reading.
proof fn lemma_run_properties(state: TraversalView, remaining: Seq<ReadingView>)
    requires
        state.phase == Phase::AwaitProperty,
        remaining.len() > 0,
        state.properties.len() + remaining.len() == state.property_count,
    ensures
        run(state, property_replies(remaining)) == slots_done(
            state,
            state.properties + resolved_all(remaining),
        ),
    decreases remaining.len(),
{
    let replies = property_replies(remaining);
    let after = step_spec(state, replies[0]).0;
    assert(replies[0] == ReplyView::Property(remaining[0]));
    assert(replies.drop_first() =~= property_replies(remaining.drop_first()));
    let grown = state.properties.push(resolved(remaining[0]));
    assert(after == with_property(state, resolved(remaining[0])).0);
    if remaining.len() == 1 {
        assert(after == slots_done(state, grown));
        assert(replies.drop_first().len() == 0);
        assert(run(after, replies.drop_first()) == after);
        assert(grown =~= state.properties + resolved_all(remaining));
    } else {
        assert(after == TraversalView { properties: grown, ..state });
        lemma_run_properties(after, remaining.drop_first());
        assert(grown + resolved_all(remaining.drop_first()) =~= state.properties + resolved_all(
            remaining,
        ));
    }
}

/// The state of a traversal that has closed the open device with `record`.
pub open spec fn device_done(state: TraversalView, record: DeviceView) -> TraversalView {
    TraversalView {
        records: state.records.push(record),
        current_id: Seq::empty(),
        property_count: 0,
        properties: Seq::empty(),
        controller: Seq::empty(),
        ..state
    }
}

/// From a state that waits for a device, the replies that concern the
/// device add its record and turn to the next device.
proof fn lemma_run_device(state: TraversalView, device: DeviceSnapshot)
    requires
        state.phase == Phase::AwaitDevice,
        device.readings.len() <= u32::MAX,
    ensures
        run(state, device_replies(device)) == next_device(
            device_done(state, record_of(device)),
        ).0,
{
    let opened = seq![
        ReplyView::DeviceOpened { id: device.id, property_count: device.readings.len() as u32 },
    ];
    let slots = property_replies(device.readings);
    let tail = seq![controller_reply(device.controller), ReplyView::Topology(device.topology)];
    assert(device_replies(device) == opened + slots + tail);
    lemma_run_concat(state, opened + slots, tail);
    lemma_run_concat(state, opened, slots);

    let fresh = TraversalView {
        current_id: device.id,
        property_count: device.readings.len() as u32,
        properties: Seq::empty(),
        ..state
    };
    let at_slots = next_property(fresh).0;
    assert(run(state, opened) == at_slots) by {
        assert(opened.drop_first().len() == 0);
        assert(run(step_spec(state, opened[0]).0, opened.drop_first()) == step_spec(
            state,
            opened[0],
        ).0);
    }
    let all = resolved_all(device.readings);
    let at_controller = slots_done(fresh, all);
    assert(run(at_slots, slots) == at_controller) by {
        if device.readings.len() == 0 {
            assert(slots.len() == 0);
            assert(all =~= Seq::empty());
        } else {
            lemma_run_properties(at_slots, device.readings);
            assert(at_slots.properties + all =~= all);
        }
    }
    let field = controller_text(device.controller);
    let at_topology = TraversalView { phase: Phase::AwaitTopology, controller: field, ..at_controller };
    assert(step_spec(at_controller, tail[0]).0 == at_topology);
    let closed = step_spec(at_topology, tail[1]).0;
    assert(closed == next_device(device_done(state, record_of(device))).0) by {
        let ahead = device_done(state, record_of(device));
        assert(device_done(at_topology, record_of(device)) == TraversalView {
            phase: Phase::AwaitTopology,
            ..ahead
        });
    }
    assert(run(at_controller, tail) == closed) by {
        assert(tail.drop_first()[0] == tail[1]);
        assert(tail.drop_first().drop_first().len() == 0);
        assert(run(closed, tail.drop_first().drop_first()) == closed);
        assert(run(at_topology, tail.drop_first()) == closed);
    }
}

/// From a state that waits for a device, the replies that concern the
/// devices still to come lead to the end, with one record more for each.
proof fn lemma_run_devices(state: TraversalView, remaining: Seq<DeviceSnapshot>)
    requires
        state.phase == Phase::AwaitDevice,
        remaining.len() > 0,
        state.records.len() + remaining.len() == state.device_count,
        forall|i: int| 0 <= i < remaining.len() ==> (#[trigger] remaining[i]).readings.len() <= u32::MAX,
    ensures
        run(state, devices_replies(remaining)).phase == Phase::Finished,
        run(state, devices_replies(remaining)).records == state.records + records_of(remaining),
        run(state, devices_replies(remaining)).failure == state.failure,
    decreases remaining.len(),
{
    let rest = remaining.drop_first();
    lemma_run_concat(state, device_replies(remaining[0]), devices_replies(rest));
    lemma_run_device(state, remaining[0]);
    let closed = device_done(state, record_of(remaining[0]));
    let after = next_device(closed).0;
    if rest.len() == 0 {
        assert(devices_replies(rest) =~= Seq::empty());
        assert(after.records =~= state.records + records_of(remaining));
    } else {
        assert forall|i: int| 0 <= i < rest.len() implies (#[trigger] rest[i]).readings.len()
            <= u32::MAX by {
            assert(rest[i] == remaining[i + 1]);
        }
        lemma_run_devices(after, rest);
        assert(after.records + records_of(rest) =~= state.records + records_of(remaining));
    }
}

/// A traversal whose driver reports a snapshot faithfully comes to its end,
/// and its report is the records of the snapshot's devices: as many as the
/// platform counted, each at the place of its device.
pub proof fn lemma_faithful_run_reports_every_device(
    policy: PolicyView,
    devices: Seq<DeviceSnapshot>,
)
    requires
        countable(devices),
    ensures
        report_spec(run(initial(policy), faithful_replies(devices))) == Ok::<
            Seq<DeviceView>,
            ErrorView,
        >(records_of(devices)),
        records_of(devices).len() == devices.len(),
        forall|i: int| 0 <= i < devices.len() ==> (#[trigger] records_of(devices)[i]) == record_of(devices[i]),
{
    let head = seq![ReplyView::ServiceOpened, ReplyView::DeviceCount(devices.len() as u32)];
    lemma_run_concat(initial(policy), head, devices_replies(devices));
    let counted = TraversalView { device_count: devices.len() as u32, ..initial(policy) };
    let listed = next_device(counted).0;
    assert(run(initial(policy), head) == listed) by {
        let opened = step_spec(initial(policy), head[0]).0;
        assert(head.drop_first()[0] == head[1]);
        assert(head.drop_first().drop_first().len() == 0);
        assert(step_spec(opened, head[1]).0 == listed);
        assert(run(listed, head.drop_first().drop_first()) == listed);
        assert(run(opened, head.drop_first()) == listed);
    }
    if devices.len() == 0 {
        assert(devices_replies(devices) =~= Seq::empty());
        assert(records_of(devices) =~= Seq::empty());
    } else {
        lemma_run_devices(listed, devices);
        assert(listed.records + records_of(devices) =~= records_of(devices));
    }
}

/// A device whose store has no slots gets a record without properties.
pub proof fn lemma_empty_store_gives_no_properties(device: DeviceSnapshot)
    requires
        device.readings.len() == 0,
    ensures
        record_of(device).properties == Seq::<PropertyView>::empty(),
{
    assert(resolved_all(device.readings) =~= Seq::empty());
}

/// A slot whose value could not be rendered gets a property with an empty
/// value and with the key, canonical text, name and description of its
/// reading; every slot of the store, before and behind it, gets the property
/// that its own reading resolves to.
pub proof fn lemma_unreadable_value_stays_in_its_slot(device: DeviceSnapshot, slot: int)
    requires
        0 <= slot < device.readings.len(),
        device.readings[slot].value is None,
    ensures
        record_of(device).properties.len() == device.readings.len(),
        record_of(device).properties[slot].value == Seq::<char>::empty(),
        record_of(device).properties[slot].key == device.readings[slot].key,
        record_of(device).properties[slot].guid == resolved(device.readings[slot]).guid,
        record_of(device).properties[slot].name == resolved(device.readings[slot]).name,
        record_of(device).properties[slot].description == resolved(
            device.readings[slot],
        ).description,
        forall|other: int|
            0 <= other < device.readings.len() ==> (#[trigger] record_of(device).properties[other])
                == resolved(device.readings[other]),
{
}

/// A device whose controller could not be resolved gets a record whose
/// controller field is the placeholder with the reason of the failure; its
/// other fields are those it would have with a controller.
pub proof fn lemma_unresolved_controller_stays_in_its_field(
    device: DeviceSnapshot,
    reason: Seq<char>,
    controller: Seq<char>,
)
    requires
        device.controller == Err::<Seq<char>, Seq<char>>(reason),
    ensures
        record_of(device).audio_controller_id == placeholder(reason),
        record_of(device).properties == resolved_all(device.readings),
        record_of(device) == (DeviceView {
            audio_controller_id: placeholder(reason),
            ..record_of(DeviceSnapshot { controller: Ok(controller), ..device })
        }),
{
}

/// What holds of every state that a traversal can reach: no more devices
/// have a record than the platform counted, a traversal at work on a device
/// has not yet made that device's record, and a finished traversal has a
/// record for every device.
pub open spec fn consistent(state: TraversalView) -> bool {
    match state.phase {
        Phase::AwaitService => state.records.len() == 0 && state.device_count == 0,
        Phase::AwaitCount => state.records.len() == 0 && state.device_count == 0,
        Phase::AwaitDevice => state.records.len() < state.device_count,
        Phase::AwaitProperty => {
            &&& state.records.len() < state.device_count
            &&& state.properties.len() < state.property_count
        },
        Phase::AwaitController => {
            &&& state.records.len() < state.device_count
            &&& state.properties.len() == state.property_count
        },
        Phase::AwaitTopology => {
            &&& state.records.len() < state.device_count
            &&& state.properties.len() == state.property_count
        },
        Phase::Finished => state.records.len() == state.device_count,
        Phase::Failed => state.failure is Some && state.records.len() <= state.device_count,
    }
}

/// A traversal begins in a consistent state.
pub proof fn lemma_initial_consistent(policy: PolicyView)
    ensures
        consistent(initial(policy)),
{
}

/// Whatever the driver replies, a consistent state is followed by a
/// consistent state.
pub proof fn lemma_step_keeps_consistent(state: TraversalView, reply: ReplyView)
    requires
        consistent(state),
    ensures
        consistent(step_spec(state, reply).0),
{
}

/// Whatever the driver replies, and however often, a traversal stays
/// consistent.
pub proof fn lemma_run_keeps_consistent(state: TraversalView, replies: Seq<ReplyView>)
    requires
        consistent(state),
    ensures
        consistent(run(state, replies)),
    decreases replies.len(),
{
    if replies.len() > 0 {
        lemma_step_keeps_consistent(state, replies[0]);
        lemma_run_keeps_consistent(step_spec(state, replies[0]).0, replies.drop_first());
    }
}

/// Whatever the driver replied on the way, the report of a finished
/// traversal holds as many records as the platform counted devices.
pub proof fn lemma_report_has_one_record_for_each_device(
    policy: PolicyView,
    replies: Seq<ReplyView>,
)
    requires
        run(initial(policy), replies).phase == Phase::Finished,
    ensures
        report_spec(run(initial(policy), replies)) == Ok::<Seq<DeviceView>, ErrorView>(
            run(initial(policy), replies).records,
        ),
        run(initial(policy), replies).records.len() == run(initial(policy), replies).device_count,
{
    lemma_initial_consistent(policy);
    lemma_run_keeps_consistent(initial(policy), replies);
}

/// A failure that concerns one property, one controller or one topology
/// value does not end the traversal: the state that follows is not failed,
/// and no record that was made is lost.
pub proof fn lemma_item_failure_goes_on(state: TraversalView, reason: Seq<char>)
    requires
        state.phase == Phase::AwaitProperty || state.phase == Phase::AwaitController
            || state.phase == Phase::AwaitTopology,
    ensures
        step_spec(state, ReplyView::Failure(reason)).0.phase != Phase::Failed,
        step_spec(state, ReplyView::Failure(reason)).0.failure == state.failure,
        state.records.is_prefix_of(step_spec(state, ReplyView::Failure(reason)).0.records),
{
}

/// A failure to open the service, to list the devices or to open a device
/// ends the traversal, and the report is the failure with its reason.
pub proof fn lemma_service_failure_is_reported(state: TraversalView, reason: Seq<char>)
    requires
        state.phase == Phase::AwaitService || state.phase == Phase::AwaitCount || state.phase
            == Phase::AwaitDevice,
    ensures
        report_spec(step_spec(state, ReplyView::Failure(reason)).0) == Err::<
            Seq<DeviceView>,
            ErrorView,
        >(ErrorView::ServiceUnavailable { reason }),
{
}

/// A traversal that has ended stays as it is, whatever the driver replies.
pub proof fn lemma_end_is_final(state: TraversalView, replies: Seq<ReplyView>)
    requires
        state.phase == Phase::Finished || state.phase == Phase::Failed,
    ensures
        run(state, replies) == state,
    decreases replies.len(),
{
    if replies.len() > 0 {
        lemma_end_is_final(state, replies.drop_first());
    }
}

} // verus!
