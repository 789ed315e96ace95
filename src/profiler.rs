use vstd::prelude::*;

use crate::guid::{UnityInterfaceGuid, PROFILER_GUID_HIGH, PROFILER_GUID_LOW};
use crate::interfaces::UnityInterface;
use crate::metadata::{
    data_type_of,
    data_type_tag,
    data_unit_code,
    data_wf,
    encoded,
    natural_width,
    nul_free,
    MarkerMetaData,
    MarkerMetaDescriptor,
};
use vstd::slice::slice_to_vec;
use vstd::string::StringSliceAdditionalSpecFns;

verus! {

/// The failure of building the profiler facade.
#[derive(Clone, Copy, Debug, PartialEq, Eq, Structural)]
pub enum ProfilerCreationError {
    /// The table has no function telling whether this build has a profiler.
    MissingAvailableFn,
}

/// The failure of creating a marker, with the host's error code.
#[derive(Clone, Copy, Debug, PartialEq, Eq, Structural)]
pub enum CreateMarkerErr {
    /// The host refused the marker itself.
    Marker(i32),
    /// The host refused one of the marker's metadata slots.
    MarkerMeta(i32),
}

/// The failure of registering a thread with the profiler.
#[derive(Clone, Copy, Debug, PartialEq, Eq, Structural)]
pub enum RegisterThreadErr {
    /// A group or thread name holds a character outside ASCII.
    NonAscii,
    /// A group or thread name holds a NUL.
    Nul,
    /// The host refused, with this code.
    Unity(i32),
}

/// A thread as the host's profiler knows it.
#[derive(Clone, Copy, Debug, PartialEq, Eq, Structural)]
pub struct UnityThreadId(pub u64);

/// The kinds of event a marker emits.
#[derive(Clone, Copy, Debug, PartialEq, Eq, Structural)]
pub enum EventType {
    Begin,
    End,
    Single,
}

/// The host's numeric code for an event kind.
pub open spec fn event_type_code(e: EventType) -> u16 {
    match e {
        EventType::Begin => 0,
        EventType::End => 1,
        EventType::Single => 2,
    }
}

impl EventType {
    /// The host's numeric code for this event kind.
    pub fn code(self) -> (r: u16)
        ensures
            r == event_type_code(self),
    {
        match self {
            EventType::Begin => 0,
            EventType::End => 1,
            EventType::Single => 2,
        }
    }
}

/// The facade over the host's profiler table.
///
/// Whether the build has a profiler at all is asked once, when the facade is
/// built; whether it is recording is the host's live state, asked anew on
/// every query.
#[derive(Debug)]
pub struct UnityProfiler {
    table: usize,
    available: bool,
}

impl UnityInterface for UnityProfiler {
    /// The host's answer to "is a profiler available", or `None` when the
    /// table has no function to ask.
    type Probe = Option<bool>;

    type FFIConversionError = ProfilerCreationError;

    open spec fn spec_guid() -> UnityInterfaceGuid {
        UnityInterfaceGuid { high: PROFILER_GUID_HIGH, low: PROFILER_GUID_LOW }
    }

    open spec fn spec_accepts(probe: Option<bool>) -> bool {
        probe is Some
    }

    closed spec fn spec_table(&self) -> usize {
        self.table
    }

    fn guid() -> (g: UnityInterfaceGuid) {
        UnityInterfaceGuid { high: PROFILER_GUID_HIGH, low: PROFILER_GUID_LOW }
    }

    fn try_from_table(table: usize, probe: Option<bool>) -> (r: Result<
        UnityProfiler,
        ProfilerCreationError,
    >) {
        match probe {
            Some(available) => Ok(UnityProfiler { table, available }),
            None => Err(ProfilerCreationError::MissingAvailableFn),
        }
    }
}

/// The logging and profiler capabilities are published under different
/// identifiers, so resolving one never yields the facade of the other.
pub proof fn lemma_capability_guids_distinct()
    ensures
        <crate::logger::UnityLogger as UnityInterface>::spec_guid()
            != <UnityProfiler as UnityInterface>::spec_guid(),
{
}

/// One metadata value of an event, laid out as the host reads it.
#[derive(Debug)]
pub struct MarkerData {
    /// The host's tag for the value's kind.
    pub type_tag: u8,
    /// The number of bytes in `bytes`.
    pub size: u32,
    pub bytes: Vec<u8>,
}

/// One call of the host's event function.
#[derive(Debug)]
pub struct EventEmission {
    /// The host's descriptor of the marker.
    pub desc: usize,
    pub event_type: EventType,
    /// The metadata values; `None` stands for a null array and a count of
    /// zero, which is what the host gets when there is nothing to send.
    pub data: Option<Vec<MarkerData>>,
}

/// Whether `d` is the host's layout of the values `meta`, in order.
pub open spec fn lays_out(d: Seq<MarkerData>, meta: Seq<MarkerMetaData>) -> bool {
    &&& d.len() == meta.len()
    &&& forall|i: int|
        0 <= i < d.len() ==> {
            &&& #[trigger] d[i].type_tag == data_type_tag(data_type_of(meta[i]))
            &&& d[i].bytes@ == encoded(meta[i])
            &&& d[i].size as nat == natural_width(meta[i])
        }
}

/// Whether every value of `meta` can be encoded and its width fits the
/// host's 32-bit size field.
pub open spec fn meta_sendable(meta: Seq<MarkerMetaData>) -> bool {
    forall|i: int|
        0 <= i < meta.len() ==> data_wf(#[trigger] meta[i]) && natural_width(meta[i]) <= u32::MAX
}

/// A registered marker: the host's descriptor and the shape of its metadata.
#[derive(Debug)]
pub struct ProfilerMarker {
    desc: usize,
    shape: Vec<MarkerMetaDescriptor>,
}

impl ProfilerMarker {
    /// The host's descriptor of this marker.
    pub closed spec fn spec_desc(&self) -> usize {
        self.desc
    }

    /// The slots every event of this marker carries, in order.
    pub closed spec fn spec_shape(&self) -> Seq<MarkerMetaDescriptor> {
        self.shape@
    }

    /// The host's descriptor of this marker.
    pub fn raw(&self) -> (r: usize)
        ensures
            r == self.spec_desc(),
    {
        self.desc
    }

    /// The number of metadata slots.
    pub fn meta_count(&self) -> (r: usize)
        ensures
            r == self.spec_shape().len(),
    {
        self.shape.len()
    }
}

impl UnityProfiler {
    /// Whether this build has a profiler, as asked when the facade was built.
    pub closed spec fn spec_available(&self) -> bool {
        self.available
    }

    /// Whether profiling is on, given the host's live answer `host_enabled`.
    pub open spec fn spec_enabled(&self, host_enabled: bool) -> bool {
        self.spec_available() && host_enabled
    }

    /// The address of the host's profiler table.
    pub fn table(&self) -> (r: usize)
        ensures
            r == self.spec_table(),
    {
        self.table
    }

    /// Whether this build has a profiler. Only then is the host's live
    /// state worth asking.
    pub fn is_available(&self) -> (r: bool)
        ensures
            r == self.spec_available(),
    {
        self.available
    }

    /// Whether profiling is on now. `host_enabled` is the host's live answer;
    /// without a profiler the answer is `false` whatever it says. The result
    /// is a function of the facade and the host's state alone, so asking
    /// again while the host's state stays the same gives the same answer.
    pub fn is_enabled(&self, host_enabled: bool) -> (r: bool)
        ensures
            r == self.spec_enabled(host_enabled),
    {
        if !self.available {
            return false;
        }
        host_enabled
    }

    /// The call that tells the host about an event of `marker`, with the
    /// values `meta` when given.
    pub(crate) fn emit_event(
        &self,
        marker: &ProfilerMarker,
        event: EventType,
        meta: Option<&Vec<MarkerMetaData>>,
    ) -> (r: EventEmission)
        requires
            self.spec_available(),
            marker.spec_desc() != 0,
            meta matches Some(m) ==> m@.len() == marker.spec_shape().len() && meta_sendable(m@),
        ensures
            r.desc == marker.spec_desc(),
            r.event_type == event,
            r.data is None <==> (meta is None || marker.spec_shape().len() == 0),
            r.data matches Some(d) ==> (meta matches Some(m) && lays_out(d@, m@)),
    {
        match meta {
            None => EventEmission { desc: marker.desc, event_type: event, data: None },
            Some(values) => {
                if marker.shape.len() == 0 {
                    return EventEmission { desc: marker.desc, event_type: event, data: None };
                }
                let mut out: Vec<MarkerData> = Vec::new();
                let mut i: usize = 0;
                while i < values.len()
                    invariant
                        0 <= i <= values@.len(),
                        meta_sendable(values@),
                        lays_out(out@, values@.subrange(0, i as int)),
                    decreases values@.len() - i,
                {
                    let v = values[i];
                    assert(data_wf(values@[i as int]));
                    let bytes = v.to_c_compatible_bytes();
                    let size = bytes.len() as u32;
                    let item = MarkerData { type_tag: v.data_type().tag(), size, bytes };
                    out.push(item);
                    i = i + 1;
                    assert(lays_out(out@, values@.subrange(0, i as int))) by {
                        let m = values@.subrange(0, i as int);
                        assert forall|j: int| 0 <= j < out@.len() implies {
                            &&& #[trigger] out@[j].type_tag == data_type_tag(data_type_of(m[j]))
                            &&& out@[j].bytes@ == encoded(m[j])
                            &&& out@[j].size as nat == natural_width(m[j])
                        } by {
                            if j < i - 1 {
                                assert(values@.subrange(0, i - 1)[j] == m[j]);
                            }
                        }
                    }
                }
                assert(values@.subrange(0, values@.len() as int) =~= values@);
                EventEmission { desc: marker.desc, event_type: event, data: Some(out) }
            },
        }
    }
}

/// The arguments of the host's marker creation call: the name as the host
/// reads it and the number of metadata slots.
#[derive(Debug)]
pub struct MarkerRegistration {
    pub name: Vec<u8>,
    pub event_data_count: i32,
}

/// The arguments of the host's call that names metadata slot `index` of the
/// marker with descriptor `desc`.
#[derive(Debug)]
pub struct SlotRegistration {
    pub desc: usize,
    pub index: i32,
    pub name: Vec<u8>,
    pub type_tag: u8,
    pub unit: u8,
}

/// Whether `s` holds the arguments that register slot `i` of `shape` on the
/// marker with descriptor `desc`.
pub open spec fn registers_slot(s: SlotRegistration, desc: usize, shape: Seq<MarkerMetaDescriptor>, i: int) -> bool {
    &&& s.desc == desc
    &&& s.index as int == i
    &&& s.name@ == shape[i].spec_name().spec_bytes().push(0u8)
    &&& s.type_tag == data_type_tag(shape[i].spec_datatype())
    &&& s.unit == data_unit_code(shape[i].spec_unit())
}

/// Whether a shape can be registered: its names can be handed to the host
/// and its slot count fits the host's 16-bit count.
pub open spec fn shape_wf(shape: Seq<MarkerMetaDescriptor>) -> bool {
    &&& shape.len() < u16::MAX
    &&& forall|i: int| 0 <= i < shape.len() ==> (#[trigger] shape[i]).wf()
}

/// A marker being registered with the host. First the marker itself is
/// created, then each metadata slot is named, in the shape's order. The first
/// refusal ends the whole registration; what the host had set up by then is
/// left as it is, since the host offers no way to take it back.
#[derive(Debug)]
pub struct MarkerCreation {
    shape: Vec<MarkerMetaDescriptor>,
    desc: usize,
    awaiting: usize,
}

/// What a marker registration asks for next.
#[derive(Debug)]
pub enum CreationStep {
    /// Name this slot with the host, then hand the answer to the creation.
    Register(MarkerCreation, SlotRegistration),
    /// The registration is over.
    Finished(Result<ProfilerMarker, CreateMarkerErr>),
}

impl MarkerCreation {
    /// The slots of the marker being registered.
    pub closed spec fn spec_shape(&self) -> Seq<MarkerMetaDescriptor> {
        self.shape@
    }

    /// The marker's descriptor, once the host has created it.
    pub closed spec fn spec_desc(&self) -> usize {
        self.desc
    }

    /// `None` while the host's answer on the marker itself is awaited, and
    /// `Some(i)` while its answer on slot `i` is.
    pub closed spec fn spec_awaiting(&self) -> Option<int> {
        if self.awaiting == 0 {
            None
        } else {
            Some(self.awaiting - 1)
        }
    }

    /// The registration is well formed.
    pub closed spec fn wf(&self) -> bool {
        &&& shape_wf(self.shape@)
        &&& self.awaiting <= self.shape@.len()
    }

    /// Takes the host's answer `code` to the last call, and `desc`, the
    /// descriptor it wrote when that call created the marker itself (it is
    /// not read otherwise). A non-zero code ends the registration with that
    /// code; otherwise the next slot is named, or the marker is done.
    pub fn advance(self, code: i32, desc: usize) -> (r: CreationStep)
        requires
            self.wf(),
        ensures
            code != 0 ==> r == CreationStep::Finished(
                Err(
                    if self.spec_awaiting() is None {
                        CreateMarkerErr::Marker(code)
                    } else {
                        CreateMarkerErr::MarkerMeta(code)
                    },
                ),
            ),
            code == 0 ==> ({
                let d = if self.spec_awaiting() is None {
                    desc
                } else {
                    self.spec_desc()
                };
                let next = match self.spec_awaiting() {
                    None => 0,
                    Some(i) => i + 1,
                };
                if next == self.spec_shape().len() {
                    r matches CreationStep::Finished(Ok(m)) && m.spec_desc() == d && m.spec_shape()
                        == self.spec_shape()
                } else {
                    r matches CreationStep::Register(c, s) && c.wf() && c.spec_shape()
                        == self.spec_shape() && c.spec_desc() == d && c.spec_awaiting() == Some(
                        next,
                    ) && registers_slot(s, d, self.spec_shape(), next)
                }
            }),
    {
        if code != 0 {
            if self.awaiting == 0 {
                return CreationStep::Finished(Err(CreateMarkerErr::Marker(code)));
            } else {
                return CreationStep::Finished(Err(CreateMarkerErr::MarkerMeta(code)));
            }
        }
        let d = if self.awaiting == 0 {
            desc
        } else {
            self.desc
        };
        let next = self.awaiting;
        if next == self.shape.len() {
            return CreationStep::Finished(Ok(ProfilerMarker { desc: d, shape: self.shape }));
        }
        let slot = &self.shape[next];
        assert(self.shape@[next as int].wf());
        let reg = SlotRegistration {
            desc: d,
            index: next as i32,
            name: slot.name_c(),
            type_tag: slot.datatype().tag(),
            unit: slot.unit().code(),
        };
        CreationStep::Register(MarkerCreation { shape: self.shape, desc: d, awaiting: next + 1 }, reg)
    }
}

impl UnityProfiler {
    /// Starts registering a marker named `name` whose events carry the slots
    /// of `shape`: returns the registration and the arguments of its first
    /// host call. The name must hold no NUL.
    pub fn create_marker_with_data(&self, name: &str, shape: Vec<MarkerMetaDescriptor>) -> (r: (
        MarkerCreation,
        MarkerRegistration,
    ))
        requires
            nul_free(name),
            shape_wf(shape@),
        ensures
            r.0.wf(),
            r.0.spec_shape() == shape@,
            r.0.spec_awaiting() is None,
            r.1.name@ == name.spec_bytes().push(0u8),
            r.1.event_data_count == shape@.len(),
    {
        let mut name_c = slice_to_vec(name.as_bytes());
        name_c.push(0u8);
        let count = shape.len() as i32;
        (MarkerCreation { shape, desc: 0, awaiting: 0 }, MarkerRegistration {
            name: name_c,
            event_data_count: count,
        })
    }

    /// Starts registering a marker named `name` whose events carry no
    /// metadata. The name must hold no NUL.
    pub fn create_marker(&self, name: &str) -> (r: (MarkerCreation, MarkerRegistration))
        requires
            nul_free(name),
        ensures
            r.0.wf(),
            r.0.spec_shape().len() == 0,
            r.0.spec_awaiting() is None,
            r.1.name@ == name.spec_bytes().push(0u8),
            r.1.event_data_count == 0,
    {
        self.create_marker_with_data(name, Vec::new())
    }
}

/// The arguments of the host's thread registration call: the group and
/// thread names, each NUL-terminated.
#[derive(Debug)]
pub struct ThreadRegistration {
    pub group_name: Vec<u8>,
    pub thread_name: Vec<u8>,
}

impl UnityProfiler {
    /// Checks the names under which the calling thread is to be registered,
    /// and gives the arguments of the host call. Names outside ASCII are
    /// refused first, then names holding a NUL; a refused registration makes
    /// no host call. Unregistering is left to the caller.
    pub fn register_current_thread(&self, group_name: &str, thread_name: &str) -> (r: Result<
        ThreadRegistration,
        RegisterThreadErr,
    >)
        ensures
            !(group_name.is_ascii() && thread_name.is_ascii()) ==> r == Err::<
                ThreadRegistration,
                RegisterThreadErr,
            >(RegisterThreadErr::NonAscii),
            group_name.is_ascii() && thread_name.is_ascii() && !(nul_free(group_name) && nul_free(
                thread_name,
            )) ==> r == Err::<ThreadRegistration, RegisterThreadErr>(RegisterThreadErr::Nul),
            r is Ok <==> group_name.is_ascii() && thread_name.is_ascii() && nul_free(group_name)
                && nul_free(thread_name),
            r matches Ok(t) ==> t.group_name@ == group_name.spec_bytes().push(0u8)
                && t.thread_name@ == thread_name.spec_bytes().push(0u8),
    {
        if !group_name.is_ascii() || !thread_name.is_ascii() {
            return Err(RegisterThreadErr::NonAscii);
        }
        if crate::metadata::contains_nul(group_name) || crate::metadata::contains_nul(thread_name) {
            return Err(RegisterThreadErr::Nul);
        }
        let mut g = slice_to_vec(group_name.as_bytes());
        g.push(0u8);
        let mut t = slice_to_vec(thread_name.as_bytes());
        t.push(0u8);
        Ok(ThreadRegistration { group_name: g, thread_name: t })
    }

    /// Reads the host's answer to a thread registration: code zero means
    /// success, and `thread_id` is then the id the host wrote.
    pub fn thread_registered(&self, code: i32, thread_id: u64) -> (r: Result<
        UnityThreadId,
        RegisterThreadErr,
    >)
        ensures
            code == 0 ==> r == Ok::<UnityThreadId, RegisterThreadErr>(UnityThreadId(thread_id)),
            code != 0 ==> r == Err::<UnityThreadId, RegisterThreadErr>(
                RegisterThreadErr::Unity(code),
            ),
    {
        if code == 0 {
            Ok(UnityThreadId(thread_id))
        } else {
            Err(RegisterThreadErr::Unity(code))
        }
    }

    /// The id under which the host is asked to unregister the calling thread.
    pub fn unregister_current_thread(&self) -> (r: UnityThreadId)
        ensures
            r == UnityThreadId(0),
    {
        UnityThreadId(0)
    }

    /// Reads the host's answer to unregistering a thread: code zero means
    /// success, any other code is handed back.
    pub fn thread_unregistered(&self, code: i32) -> (r: Result<(), i32>)
        ensures
            code == 0 ==> r == Ok::<(), i32>(()),
            code != 0 ==> r == Err::<(), i32>(code),
    {
        if code == 0 {
            Ok(())
        } else {
            Err(code)
        }
    }
}

} // verus!
