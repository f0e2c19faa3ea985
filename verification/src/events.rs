//! Events: what the target VM reports of its own accord, in composites that
//! arrive as commands of set 64, command 100.

use crate::codec::{
    DecodeFailure, DecodeJdwpDataError, JdwpCodec, JdwpDecodable, JdwpDecoder, Parsed,
};
use crate::constants::{ClassStatus, EventKind, SuspendPolicy, TypeTag, UnknownTagError};
use crate::id_sizes::IdSizes;
use crate::ids::{FieldId, ObjectId, ReferenceTypeId, TaggedObjectId, ThreadId};
use crate::packet::RawCommandPacket;
use crate::values::{Boolean, Int, Location, Long, Value};
use vstd::prelude::*;

verus! {

/// The command set of a composite of events.
pub const EVENT_COMMAND_SET: u8 = 64;

/// The command of a composite of events within its set.
pub const EVENT_COMMAND: u8 = 100;

/// Events, as received from the target VM.
#[derive(Debug, Clone)]
#[allow(inconsistent_fields)]
pub enum Event {
    /// A step in the target VM was completed.
    SingleStep {
        request_id: Int,
        thread: ThreadId,
        location: Location,
    },
    /// A breakpoint was hit.
    Breakpoint {
        request_id: Int,
        thread: ThreadId,
        location: Location,
    },
    /// A frame was popped. It carries nothing.
    FramePop,
    /// An exception was thrown.
    Exception {
        request_id: Int,
        thread: ThreadId,
        location: Location,
        exception: TaggedObjectId,
        catch_location: Location,
    },
    /// An event that the user defined. It carries nothing.
    UserDefined,
    /// A thread began to run.
    ThreadStart {
        request_id: Int,
        thread: ThreadId,
    },
    /// A thread ended.
    ThreadDeath {
        request_id: Int,
        thread: ThreadId,
    },
    /// A class was prepared.
    ClassPrepare {
        request_id: Int,
        thread: ThreadId,
        ref_type_tag: TypeTag,
        type_id: ReferenceTypeId,
        signature: String,
        status: ClassStatus,
    },
    /// A class was unloaded.
    ClassUnload {
        request_id: Int,
        signature: String,
    },
    /// A class was loaded. It carries nothing.
    ClassLoad,
    /// A field was read.
    FieldAccess {
        request_id: Int,
        thread: ThreadId,
        ref_type_tag: TypeTag,
        type_id: ReferenceTypeId,
        field_id: FieldId,
        object: ObjectId,
    },
    /// A field is about to be written.
    FieldModification {
        request_id: Int,
        thread: ThreadId,
        ref_type_tag: TypeTag,
        type_id: ReferenceTypeId,
        field_id: FieldId,
        object: ObjectId,
        value_to_be: Value,
    },
    /// An exception was caught. It carries nothing.
    ExceptionCatch,
    /// A method was entered.
    MethodEntry {
        request_id: Int,
        thread: ThreadId,
        location: Location,
    },
    /// A method returned.
    MethodExit {
        request_id: Int,
        thread: ThreadId,
        location: Location,
    },
    /// A method returned, and its value is reported.
    MethodExitWithReturnValue {
        request_id: Int,
        thread: ThreadId,
        location: Location,
        value: Value,
    },
    /// A thread is about to wait for a monitor that another holds.
    MonitorContendedEnter {
        request_id: Int,
        thread: ThreadId,
        object: TaggedObjectId,
        location: Location,
    },
    /// A thread got the monitor that it waited for.
    MonitorContendedEntered {
        request_id: Int,
        thread: ThreadId,
        object: TaggedObjectId,
        location: Location,
    },
    /// A thread is about to wait on a monitor object.
    MonitorWait {
        request_id: Int,
        thread: ThreadId,
        object: TaggedObjectId,
        location: Location,
        timeout: Long,
    },
    /// A thread has finished waiting on a monitor object.
    MonitorWaited {
        request_id: Int,
        thread: ThreadId,
        object: TaggedObjectId,
        location: Location,
        timed_out: Boolean,
    },
    /// The target VM was initialised.
    VmStart {
        request_id: Int,
        thread: ThreadId,
    },
    /// The target VM ended.
    VmDeath {
        request_id: Int,
    },
    /// The connection to the target VM is gone. Never sent across the wire.
    VmDisconnected,
}

/// What an event is, mathematically: the same variants and fields, with the
/// characters of a signature in place of the string that holds them.
#[allow(inconsistent_fields)]
pub enum EventModel {
    SingleStep {
        request_id: Int,
        thread: ThreadId,
        location: Location,
    },
    Breakpoint {
        request_id: Int,
        thread: ThreadId,
        location: Location,
    },
    FramePop,
    Exception {
        request_id: Int,
        thread: ThreadId,
        location: Location,
        exception: TaggedObjectId,
        catch_location: Location,
    },
    UserDefined,
    ThreadStart {
        request_id: Int,
        thread: ThreadId,
    },
    ThreadDeath {
        request_id: Int,
        thread: ThreadId,
    },
    ClassPrepare {
        request_id: Int,
        thread: ThreadId,
        ref_type_tag: TypeTag,
        type_id: ReferenceTypeId,
        signature: Seq<char>,
        status: ClassStatus,
    },
    ClassUnload {
        request_id: Int,
        signature: Seq<char>,
    },
    ClassLoad,
    FieldAccess {
        request_id: Int,
        thread: ThreadId,
        ref_type_tag: TypeTag,
        type_id: ReferenceTypeId,
        field_id: FieldId,
        object: ObjectId,
    },
    FieldModification {
        request_id: Int,
        thread: ThreadId,
        ref_type_tag: TypeTag,
        type_id: ReferenceTypeId,
        field_id: FieldId,
        object: ObjectId,
        value_to_be: Value,
    },
    ExceptionCatch,
    MethodEntry {
        request_id: Int,
        thread: ThreadId,
        location: Location,
    },
    MethodExit {
        request_id: Int,
        thread: ThreadId,
        location: Location,
    },
    MethodExitWithReturnValue {
        request_id: Int,
        thread: ThreadId,
        location: Location,
        value: Value,
    },
    MonitorContendedEnter {
        request_id: Int,
        thread: ThreadId,
        object: TaggedObjectId,
        location: Location,
    },
    MonitorContendedEntered {
        request_id: Int,
        thread: ThreadId,
        object: TaggedObjectId,
        location: Location,
    },
    MonitorWait {
        request_id: Int,
        thread: ThreadId,
        object: TaggedObjectId,
        location: Location,
        timeout: Long,
    },
    MonitorWaited {
        request_id: Int,
        thread: ThreadId,
        object: TaggedObjectId,
        location: Location,
        timed_out: Boolean,
    },
    VmStart {
        request_id: Int,
        thread: ThreadId,
    },
    VmDeath {
        request_id: Int,
    },
    VmDisconnected,
}

/// The fields of an event at a location: the request, the thread and the location, as they
/// follow one another on the wire.
pub type AtLocation = (Int, (ThreadId, Location));

/// The fields of the event `Exception`, as they follow one another on the wire.
pub type ExceptionFields = (Int, (ThreadId, (Location, (TaggedObjectId, Location))));

/// The fields of an event of a thread: the request and the thread, as they follow one another
/// on the wire.
pub type OfThread = (Int, ThreadId);

/// The fields of the event `ClassPrepare`, as they follow one another on the wire.
pub type ClassPrepareFields =
    (Int, (ThreadId, (TypeTag, (ReferenceTypeId, (String, ClassStatus)))));

/// The fields of the event `ClassUnload`, as they follow one another on the wire.
pub type ClassUnloadFields = (Int, String);

/// The fields of an event on a field: the request, the thread, the type, the field and the
/// object, as they follow one another on the wire.
pub type OnField = (Int, (ThreadId, (TypeTag, (ReferenceTypeId, (FieldId, ObjectId)))));

/// The fields of the event `FieldModification`, as they follow one another on the wire.
pub type FieldModificationFields =
    (Int, (ThreadId, (TypeTag, (ReferenceTypeId, (FieldId, (ObjectId, Value))))));

/// The fields of the event `MethodExitWithReturnValue`, as they follow one another on the wire.
pub type MethodExitWithReturnValueFields = (Int, (ThreadId, (Location, Value)));

/// The fields of an event at a monitor: the request, the thread, the monitor object and the
/// location, as they follow one another on the wire.
pub type AtMonitor = (Int, (ThreadId, (TaggedObjectId, Location)));

/// The fields of the event `MonitorWait`, as they follow one another on the wire.
pub type MonitorWaitFields = (Int, (ThreadId, (TaggedObjectId, (Location, Long))));

/// The fields of the event `MonitorWaited`, as they follow one another on the wire.
pub type MonitorWaitedFields = (Int, (ThreadId, (TaggedObjectId, (Location, Boolean))));

impl Event {
    /// The kind of this event.
    pub open spec fn spec_kind(&self) -> EventKind {
        match self {
            Event::SingleStep { .. } => EventKind::SingleStep,
            Event::Breakpoint { .. } => EventKind::Breakpoint,
            Event::FramePop => EventKind::FramePop,
            Event::Exception { .. } => EventKind::Exception,
            Event::UserDefined => EventKind::UserDefined,
            Event::ThreadStart { .. } => EventKind::ThreadStart,
            Event::ThreadDeath { .. } => EventKind::ThreadDeath,
            Event::ClassPrepare { .. } => EventKind::ClassPrepare,
            Event::ClassUnload { .. } => EventKind::ClassUnload,
            Event::ClassLoad => EventKind::ClassLoad,
            Event::FieldAccess { .. } => EventKind::FieldAccess,
            Event::FieldModification { .. } => EventKind::FieldModification,
            Event::ExceptionCatch => EventKind::ExceptionCatch,
            Event::MethodEntry { .. } => EventKind::MethodEntry,
            Event::MethodExit { .. } => EventKind::MethodExit,
            Event::MethodExitWithReturnValue { .. } => EventKind::MethodExitWithReturnValue,
            Event::MonitorContendedEnter { .. } => EventKind::MonitorContendedEnter,
            Event::MonitorContendedEntered { .. } => EventKind::MonitorContendedEntered,
            Event::MonitorWait { .. } => EventKind::MonitorWait,
            Event::MonitorWaited { .. } => EventKind::MonitorWaited,
            Event::VmStart { .. } => EventKind::VmStart,
            Event::VmDeath { .. } => EventKind::VmDeath,
            Event::VmDisconnected => EventKind::VmDisconnected,
        }
    }

    /// The kind of this event.
    #[verifier::when_used_as_spec(spec_kind)]
    pub fn kind(&self) -> (kind: EventKind)
        ensures
            kind == self.spec_kind(),
    {
        match self {
            Event::SingleStep { .. } => EventKind::SingleStep,
            Event::Breakpoint { .. } => EventKind::Breakpoint,
            Event::FramePop => EventKind::FramePop,
            Event::Exception { .. } => EventKind::Exception,
            Event::UserDefined => EventKind::UserDefined,
            Event::ThreadStart { .. } => EventKind::ThreadStart,
            Event::ThreadDeath { .. } => EventKind::ThreadDeath,
            Event::ClassPrepare { .. } => EventKind::ClassPrepare,
            Event::ClassUnload { .. } => EventKind::ClassUnload,
            Event::ClassLoad => EventKind::ClassLoad,
            Event::FieldAccess { .. } => EventKind::FieldAccess,
            Event::FieldModification { .. } => EventKind::FieldModification,
            Event::ExceptionCatch => EventKind::ExceptionCatch,
            Event::MethodEntry { .. } => EventKind::MethodEntry,
            Event::MethodExit { .. } => EventKind::MethodExit,
            Event::MethodExitWithReturnValue { .. } => EventKind::MethodExitWithReturnValue,
            Event::MonitorContendedEnter { .. } => EventKind::MonitorContendedEnter,
            Event::MonitorContendedEntered { .. } => EventKind::MonitorContendedEntered,
            Event::MonitorWait { .. } => EventKind::MonitorWait,
            Event::MonitorWaited { .. } => EventKind::MonitorWaited,
            Event::VmStart { .. } => EventKind::VmStart,
            Event::VmDeath { .. } => EventKind::VmDeath,
            Event::VmDisconnected => EventKind::VmDisconnected,
        }
    }
}

/// Reading what follows the kind byte of an event of the given kind. The
/// kind that is never sent across the wire is refused like a byte that
/// stands for no kind.
pub open spec fn parse_event_body(kind: EventKind, bytes: Seq<u8>, sizes: IdSizes) -> Parsed<
    EventModel,
> {
    match kind {
        EventKind::SingleStep => match AtLocation::parse(bytes, sizes) {
            Err(f) => Err(f),
            Ok(((request_id, (thread, location)), rest)) => Ok(
                (EventModel::SingleStep { request_id, thread, location }, rest),
            ),
        },
        EventKind::Breakpoint => match AtLocation::parse(bytes, sizes) {
            Err(f) => Err(f),
            Ok(((request_id, (thread, location)), rest)) => Ok(
                (EventModel::Breakpoint { request_id, thread, location }, rest),
            ),
        },
        EventKind::FramePop => Ok((EventModel::FramePop, bytes)),
        EventKind::Exception => match ExceptionFields::parse(bytes, sizes) {
            Err(f) => Err(f),
            Ok(((request_id, (thread, (location, (exception, catch_location)))), rest)) => Ok(
                (EventModel::Exception {
                    request_id,
                    thread,
                    location,
                    exception,
                    catch_location,
                }, rest),
            ),
        },
        EventKind::UserDefined => Ok((EventModel::UserDefined, bytes)),
        EventKind::ThreadStart => match OfThread::parse(bytes, sizes) {
            Err(f) => Err(f),
            Ok(((request_id, thread), rest)) => Ok(
                (EventModel::ThreadStart { request_id, thread }, rest),
            ),
        },
        EventKind::ThreadDeath => match OfThread::parse(bytes, sizes) {
            Err(f) => Err(f),
            Ok(((request_id, thread), rest)) => Ok(
                (EventModel::ThreadDeath { request_id, thread }, rest),
            ),
        },
        EventKind::ClassPrepare => match ClassPrepareFields::parse(bytes, sizes) {
            Err(f) => Err(f),
            Ok(((request_id, (thread, (ref_type_tag, (type_id, (signature, status))))), rest)) => Ok(
                (EventModel::ClassPrepare {
                    request_id,
                    thread,
                    ref_type_tag,
                    type_id,
                    signature,
                    status,
                }, rest),
            ),
        },
        EventKind::ClassUnload => match ClassUnloadFields::parse(bytes, sizes) {
            Err(f) => Err(f),
            Ok(((request_id, signature), rest)) => Ok(
                (EventModel::ClassUnload { request_id, signature }, rest),
            ),
        },
        EventKind::ClassLoad => Ok((EventModel::ClassLoad, bytes)),
        EventKind::FieldAccess => match OnField::parse(bytes, sizes) {
            Err(f) => Err(f),
            Ok(((request_id, (thread, (ref_type_tag, (type_id, (field_id, object))))), rest)) => Ok(
                (EventModel::FieldAccess {
                    request_id,
                    thread,
                    ref_type_tag,
                    type_id,
                    field_id,
                    object,
                }, rest),
            ),
        },
        EventKind::FieldModification => match FieldModificationFields::parse(bytes, sizes) {
            Err(f) => Err(f),
            Ok(((request_id, (thread, (ref_type_tag, (type_id, (field_id, (object, value_to_be)))))), rest)) => Ok(
                (EventModel::FieldModification {
                    request_id,
                    thread,
                    ref_type_tag,
                    type_id,
                    field_id,
                    object,
                    value_to_be,
                }, rest),
            ),
        },
        EventKind::ExceptionCatch => Ok((EventModel::ExceptionCatch, bytes)),
        EventKind::MethodEntry => match AtLocation::parse(bytes, sizes) {
            Err(f) => Err(f),
            Ok(((request_id, (thread, location)), rest)) => Ok(
                (EventModel::MethodEntry { request_id, thread, location }, rest),
            ),
        },
        EventKind::MethodExit => match AtLocation::parse(bytes, sizes) {
            Err(f) => Err(f),
            Ok(((request_id, (thread, location)), rest)) => Ok(
                (EventModel::MethodExit { request_id, thread, location }, rest),
            ),
        },
        EventKind::MethodExitWithReturnValue => match MethodExitWithReturnValueFields::parse(bytes, sizes) {
            Err(f) => Err(f),
            Ok(((request_id, (thread, (location, value))), rest)) => Ok(
                (EventModel::MethodExitWithReturnValue {
                    request_id,
                    thread,
                    location,
                    value,
                }, rest),
            ),
        },
        EventKind::MonitorContendedEnter => match AtMonitor::parse(bytes, sizes) {
            Err(f) => Err(f),
            Ok(((request_id, (thread, (object, location))), rest)) => Ok(
                (EventModel::MonitorContendedEnter { request_id, thread, object, location }, rest),
            ),
        },
        EventKind::MonitorContendedEntered => match AtMonitor::parse(bytes, sizes) {
            Err(f) => Err(f),
            Ok(((request_id, (thread, (object, location))), rest)) => Ok(
                (EventModel::MonitorContendedEntered {
                    request_id,
                    thread,
                    object,
                    location,
                }, rest),
            ),
        },
        EventKind::MonitorWait => match MonitorWaitFields::parse(bytes, sizes) {
            Err(f) => Err(f),
            Ok(((request_id, (thread, (object, (location, timeout)))), rest)) => Ok(
                (EventModel::MonitorWait { request_id, thread, object, location, timeout }, rest),
            ),
        },
        EventKind::MonitorWaited => match MonitorWaitedFields::parse(bytes, sizes) {
            Err(f) => Err(f),
            Ok(((request_id, (thread, (object, (location, timed_out)))), rest)) => Ok(
                (EventModel::MonitorWaited {
                    request_id,
                    thread,
                    object,
                    location,
                    timed_out,
                }, rest),
            ),
        },
        EventKind::VmStart => match OfThread::parse(bytes, sizes) {
            Err(f) => Err(f),
            Ok(((request_id, thread), rest)) => Ok(
                (EventModel::VmStart { request_id, thread }, rest),
            ),
        },
        EventKind::VmDeath => match Int::parse(bytes, sizes) {
            Err(f) => Err(f),
            Ok((request_id, rest)) => Ok(
                (EventModel::VmDeath { request_id }, rest),
            ),
        },
        EventKind::VmDisconnected => Err(DecodeFailure::IllegalByteTag(kind.spec_code())),
    }
}

impl JdwpDecodable for Event {
    type Model = EventModel;

    open spec fn model(&self) -> EventModel {
        match self {
            Event::SingleStep { request_id, thread, location } => EventModel::SingleStep {
                request_id: *request_id,
                thread: *thread,
                location: *location,
            },
            Event::Breakpoint { request_id, thread, location } => EventModel::Breakpoint {
                request_id: *request_id,
                thread: *thread,
                location: *location,
            },
            Event::FramePop => EventModel::FramePop,
            Event::Exception {
                request_id,
                thread,
                location,
                exception,
                catch_location,
            } => EventModel::Exception {
                request_id: *request_id,
                thread: *thread,
                location: *location,
                exception: *exception,
                catch_location: *catch_location,
            },
            Event::UserDefined => EventModel::UserDefined,
            Event::ThreadStart { request_id, thread } => EventModel::ThreadStart {
                request_id: *request_id,
                thread: *thread,
            },
            Event::ThreadDeath { request_id, thread } => EventModel::ThreadDeath {
                request_id: *request_id,
                thread: *thread,
            },
            Event::ClassPrepare {
                request_id,
                thread,
                ref_type_tag,
                type_id,
                signature,
                status,
            } => EventModel::ClassPrepare {
                request_id: *request_id,
                thread: *thread,
                ref_type_tag: *ref_type_tag,
                type_id: *type_id,
                signature: signature@,
                status: *status,
            },
            Event::ClassUnload { request_id, signature } => EventModel::ClassUnload {
                request_id: *request_id,
                signature: signature@,
            },
            Event::ClassLoad => EventModel::ClassLoad,
            Event::FieldAccess {
                request_id,
                thread,
                ref_type_tag,
                type_id,
                field_id,
                object,
            } => EventModel::FieldAccess {
                request_id: *request_id,
                thread: *thread,
                ref_type_tag: *ref_type_tag,
                type_id: *type_id,
                field_id: *field_id,
                object: *object,
            },
            Event::FieldModification {
                request_id,
                thread,
                ref_type_tag,
                type_id,
                field_id,
                object,
                value_to_be,
            } => EventModel::FieldModification {
                request_id: *request_id,
                thread: *thread,
                ref_type_tag: *ref_type_tag,
                type_id: *type_id,
                field_id: *field_id,
                object: *object,
                value_to_be: *value_to_be,
            },
            Event::ExceptionCatch => EventModel::ExceptionCatch,
            Event::MethodEntry { request_id, thread, location } => EventModel::MethodEntry {
                request_id: *request_id,
                thread: *thread,
                location: *location,
            },
            Event::MethodExit { request_id, thread, location } => EventModel::MethodExit {
                request_id: *request_id,
                thread: *thread,
                location: *location,
            },
            Event::MethodExitWithReturnValue {
                request_id,
                thread,
                location,
                value,
            } => EventModel::MethodExitWithReturnValue {
                request_id: *request_id,
                thread: *thread,
                location: *location,
                value: *value,
            },
            Event::MonitorContendedEnter {
                request_id,
                thread,
                object,
                location,
            } => EventModel::MonitorContendedEnter {
                request_id: *request_id,
                thread: *thread,
                object: *object,
                location: *location,
            },
            Event::MonitorContendedEntered {
                request_id,
                thread,
                object,
                location,
            } => EventModel::MonitorContendedEntered {
                request_id: *request_id,
                thread: *thread,
                object: *object,
                location: *location,
            },
            Event::MonitorWait {
                request_id,
                thread,
                object,
                location,
                timeout,
            } => EventModel::MonitorWait {
                request_id: *request_id,
                thread: *thread,
                object: *object,
                location: *location,
                timeout: *timeout,
            },
            Event::MonitorWaited {
                request_id,
                thread,
                object,
                location,
                timed_out,
            } => EventModel::MonitorWaited {
                request_id: *request_id,
                thread: *thread,
                object: *object,
                location: *location,
                timed_out: *timed_out,
            },
            Event::VmStart { request_id, thread } => EventModel::VmStart {
                request_id: *request_id,
                thread: *thread,
            },
            Event::VmDeath { request_id } => EventModel::VmDeath {
                request_id: *request_id,
            },
            Event::VmDisconnected => EventModel::VmDisconnected,
        }
    }

    /// An event is its kind byte and then the fields of its kind, in order.
    open spec fn parse(bytes: Seq<u8>, sizes: IdSizes) -> Parsed<EventModel> {
        match EventKind::parse(bytes, sizes) {
            Err(f) => Err(f),
            Ok((kind, rest)) => parse_event_body(kind, rest, sizes),
        }
    }

    fn decode(decoder: &mut JdwpDecoder) -> (r: Result<Self, DecodeJdwpDataError>) {
        let kind = EventKind::decode(decoder)?;
        match kind {
            EventKind::SingleStep
            | EventKind::Breakpoint
            | EventKind::Exception
            | EventKind::MethodEntry
            | EventKind::MethodExit
            | EventKind::MethodExitWithReturnValue => decode_located_event(kind, decoder),
            EventKind::ClassPrepare
            | EventKind::ClassUnload
            | EventKind::FieldAccess
            | EventKind::FieldModification => decode_class_event(kind, decoder),
            EventKind::MonitorContendedEnter
            | EventKind::MonitorContendedEntered
            | EventKind::MonitorWait
            | EventKind::MonitorWaited => decode_monitor_event(kind, decoder),
            _ => decode_plain_event(kind, decoder),
        }
    }
}

/// Whether `kind` is the kind of an event that happened at a location in the code.
pub open spec fn is_located_kind(kind: EventKind) -> bool {
    kind == EventKind::SingleStep
        || kind == EventKind::Breakpoint
        || kind == EventKind::Exception
        || kind == EventKind::MethodEntry
        || kind == EventKind::MethodExit
        || kind == EventKind::MethodExitWithReturnValue
}

/// Reads what follows the kind byte of an event that happened at a location in the code.
fn decode_located_event(kind: EventKind, decoder: &mut JdwpDecoder) -> (r: Result<
    Event,
    DecodeJdwpDataError,
>)
    requires
        old(decoder).sizes().valid(),
        is_located_kind(kind),
    ensures
        final(decoder).sizes() == old(decoder).sizes(),
        match parse_event_body(kind, old(decoder)@, old(decoder).sizes()) {
            Ok((m, rest)) => r matches Ok(v) && v.model() == m && final(decoder)@ == rest,
            Err(f) => r matches Err(e) && e.kind() == f,
        },
{
    let event = match kind {
        EventKind::SingleStep => {
            let (request_id, (thread, location)) = AtLocation::decode(decoder)?;
            Event::SingleStep { request_id, thread, location }
        },
        EventKind::Breakpoint => {
            let (request_id, (thread, location)) = AtLocation::decode(decoder)?;
            Event::Breakpoint { request_id, thread, location }
        },
        EventKind::Exception => {
            let (request_id, (thread, (location, (exception, catch_location)))) =
                ExceptionFields::decode(decoder)?;
            Event::Exception { request_id, thread, location, exception, catch_location }
        },
        EventKind::MethodEntry => {
            let (request_id, (thread, location)) = AtLocation::decode(decoder)?;
            Event::MethodEntry { request_id, thread, location }
        },
        EventKind::MethodExit => {
            let (request_id, (thread, location)) = AtLocation::decode(decoder)?;
            Event::MethodExit { request_id, thread, location }
        },
        EventKind::MethodExitWithReturnValue => {
            let (request_id, (thread, (location, value))) =
                MethodExitWithReturnValueFields::decode(decoder)?;
            Event::MethodExitWithReturnValue { request_id, thread, location, value }
        },
        _ => vstd::pervasive::unreached(),
    };
    Ok(event)
}

/// Whether `kind` is the kind of an event about a class or a field.
pub open spec fn is_class_kind(kind: EventKind) -> bool {
    kind == EventKind::ClassPrepare
        || kind == EventKind::ClassUnload
        || kind == EventKind::FieldAccess
        || kind == EventKind::FieldModification
}

/// Reads what follows the kind byte of an event about a class or a field.
fn decode_class_event(kind: EventKind, decoder: &mut JdwpDecoder) -> (r: Result<
    Event,
    DecodeJdwpDataError,
>)
    requires
        old(decoder).sizes().valid(),
        is_class_kind(kind),
    ensures
        final(decoder).sizes() == old(decoder).sizes(),
        match parse_event_body(kind, old(decoder)@, old(decoder).sizes()) {
            Ok((m, rest)) => r matches Ok(v) && v.model() == m && final(decoder)@ == rest,
            Err(f) => r matches Err(e) && e.kind() == f,
        },
{
    let event = match kind {
        EventKind::ClassPrepare => {
            let (request_id, (thread, (ref_type_tag, (type_id, (signature, status))))) =
                ClassPrepareFields::decode(decoder)?;
            Event::ClassPrepare { request_id, thread, ref_type_tag, type_id, signature, status }
        },
        EventKind::ClassUnload => {
            let (request_id, signature) = ClassUnloadFields::decode(decoder)?;
            Event::ClassUnload { request_id, signature }
        },
        EventKind::FieldAccess => {
            let (request_id, (thread, (ref_type_tag, (type_id, (field_id, object))))) =
                OnField::decode(decoder)?;
            Event::FieldAccess { request_id, thread, ref_type_tag, type_id, field_id, object }
        },
        EventKind::FieldModification => {
            let (request_id, (thread, (ref_type_tag, (type_id, (field_id, (object, value_to_be)))))) =
                FieldModificationFields::decode(decoder)?;
            Event::FieldModification {
                request_id,
                thread,
                ref_type_tag,
                type_id,
                field_id,
                object,
                value_to_be,
            }
        },
        _ => vstd::pervasive::unreached(),
    };
    Ok(event)
}

/// Whether `kind` is the kind of an event about a monitor.
pub open spec fn is_monitor_kind(kind: EventKind) -> bool {
    kind == EventKind::MonitorContendedEnter
        || kind == EventKind::MonitorContendedEntered
        || kind == EventKind::MonitorWait
        || kind == EventKind::MonitorWaited
}

/// Reads what follows the kind byte of an event about a monitor.
fn decode_monitor_event(kind: EventKind, decoder: &mut JdwpDecoder) -> (r: Result<
    Event,
    DecodeJdwpDataError,
>)
    requires
        old(decoder).sizes().valid(),
        is_monitor_kind(kind),
    ensures
        final(decoder).sizes() == old(decoder).sizes(),
        match parse_event_body(kind, old(decoder)@, old(decoder).sizes()) {
            Ok((m, rest)) => r matches Ok(v) && v.model() == m && final(decoder)@ == rest,
            Err(f) => r matches Err(e) && e.kind() == f,
        },
{
    let event = match kind {
        EventKind::MonitorContendedEnter => {
            let (request_id, (thread, (object, location))) = AtMonitor::decode(decoder)?;
            Event::MonitorContendedEnter { request_id, thread, object, location }
        },
        EventKind::MonitorContendedEntered => {
            let (request_id, (thread, (object, location))) = AtMonitor::decode(decoder)?;
            Event::MonitorContendedEntered { request_id, thread, object, location }
        },
        EventKind::MonitorWait => {
            let (request_id, (thread, (object, (location, timeout)))) =
                MonitorWaitFields::decode(decoder)?;
            Event::MonitorWait { request_id, thread, object, location, timeout }
        },
        EventKind::MonitorWaited => {
            let (request_id, (thread, (object, (location, timed_out)))) =
                MonitorWaitedFields::decode(decoder)?;
            Event::MonitorWaited { request_id, thread, object, location, timed_out }
        },
        _ => vstd::pervasive::unreached(),
    };
    Ok(event)
}

/// Whether `kind` is the kind of an event about a thread or the target VM, or one that carries
/// nothing.
pub open spec fn is_plain_kind(kind: EventKind) -> bool {
    kind == EventKind::FramePop
        || kind == EventKind::UserDefined
        || kind == EventKind::ThreadStart
        || kind == EventKind::ThreadDeath
        || kind == EventKind::ClassLoad
        || kind == EventKind::ExceptionCatch
        || kind == EventKind::VmStart
        || kind == EventKind::VmDeath
        || kind == EventKind::VmDisconnected
}

/// Reads what follows the kind byte of an event about a thread or the target VM, or one that
/// carries nothing.
fn decode_plain_event(kind: EventKind, decoder: &mut JdwpDecoder) -> (r: Result<
    Event,
    DecodeJdwpDataError,
>)
    requires
        old(decoder).sizes().valid(),
        is_plain_kind(kind),
    ensures
        final(decoder).sizes() == old(decoder).sizes(),
        match parse_event_body(kind, old(decoder)@, old(decoder).sizes()) {
            Ok((m, rest)) => r matches Ok(v) && v.model() == m && final(decoder)@ == rest,
            Err(f) => r matches Err(e) && e.kind() == f,
        },
{
    let event = match kind {
        EventKind::FramePop => Event::FramePop,
        EventKind::UserDefined => Event::UserDefined,
        EventKind::ThreadStart => {
            let (request_id, thread) = OfThread::decode(decoder)?;
            Event::ThreadStart { request_id, thread }
        },
        EventKind::ThreadDeath => {
            let (request_id, thread) = OfThread::decode(decoder)?;
            Event::ThreadDeath { request_id, thread }
        },
        EventKind::ClassLoad => Event::ClassLoad,
        EventKind::ExceptionCatch => Event::ExceptionCatch,
        EventKind::VmStart => {
            let (request_id, thread) = OfThread::decode(decoder)?;
            Event::VmStart { request_id, thread }
        },
        EventKind::VmDeath => {
            let request_id = Int::decode(decoder)?;
            Event::VmDeath { request_id }
        },
        EventKind::VmDisconnected => {
            return Err(DecodeJdwpDataError::IllegalByteTag(UnknownTagError(kind.code())));
        },
        _ => vstd::pervasive::unreached(),
    };
    Ok(event)
}

/// One composite of events: the events that fired together, and what the
/// target VM suspended for them.
#[derive(Debug, Clone)]
pub struct Events {
    /// Which threads were suspended.
    pub policy: SuspendPolicy,
    /// The events, in the order of the wire.
    pub events: Vec<Event>,
}

impl JdwpDecodable for Events {
    type Model = (SuspendPolicy, Seq<EventModel>);

    open spec fn model(&self) -> (SuspendPolicy, Seq<EventModel>) {
        (self.policy, self.events.model())
    }

    /// A composite is the suspend policy byte and then a sequence of events.
    open spec fn parse(bytes: Seq<u8>, sizes: IdSizes) -> Parsed<(SuspendPolicy, Seq<EventModel>)> {
        <(SuspendPolicy, Vec<Event>)>::parse(bytes, sizes)
    }

    fn decode(decoder: &mut JdwpDecoder) -> (r: Result<Self, DecodeJdwpDataError>) {
        let policy = SuspendPolicy::decode(decoder)?;
        let events = Vec::<Event>::decode(decoder)?;
        Ok(Events { policy, events })
    }
}

/// The given raw command packet is not an event.
#[derive(Debug, Clone, Copy, PartialEq, Eq, Structural)]
pub struct NotAnEventError;

/// Whether a command with this model is a composite of events: a command of
/// set 64, command 100, whose payload reads as one.
pub open spec fn events_of(command_set: u8, command: u8, payload: Seq<u8>, sizes: IdSizes)
    -> Option<(SuspendPolicy, Seq<EventModel>)> {
    if command_set == EVENT_COMMAND_SET && command == EVENT_COMMAND {
        match Events::parse(payload, sizes) {
            Ok((events, rest)) => Some(events),
            Err(f) => None,
        }
    } else {
        None
    }
}

/// Reads a command that came from the target VM as a composite of events.
/// Any other command, and one whose payload does not read as events, is
/// refused.
pub fn to_events(command: RawCommandPacket, events_codec: &JdwpCodec) -> (r: Result<
    Events,
    NotAnEventError,
>)
    requires
        events_codec.sizes().valid(),
    ensures
        match events_of(
            command.spec_header().spec_var().spec_command_set(),
            command.spec_header().spec_var().spec_command(),
            command.payload(),
            events_codec.sizes(),
        ) {
            Some(events) => r matches Ok(got) && got.model() == events,
            None => r is Err,
        },
{
    if !(command.header().command().command_set() == EVENT_COMMAND_SET
        && command.header().command().command() == EVENT_COMMAND) {
        return Err(NotAnEventError);
    }
    let mut decoder = JdwpDecoder::new(events_codec, command.data().clone());
    match Events::decode(&mut decoder) {
        Ok(events) => Ok(events),
        Err(_) => Err(NotAnEventError),
    }
}

} // verus!
