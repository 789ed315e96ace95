//! Safe, typed access to the capability tables that a Unity host hands to a
//! native plugin, and the decisions of the profiler's marker and sample
//! machinery, stated and proved with Verus.
//!
//! The host's tables are raw C function pointers. Calling through them is the
//! caller's side of the boundary; this crate decides what to call, with which
//! plain values, and what each answer means.

pub mod guid;
pub mod interfaces;
pub mod logger;
pub mod metadata;
pub mod profiler;
pub mod sample;
pub mod types;

pub use guid::UnityInterfaceGuid;
pub use interfaces::{GetError, UnityInterface, UnityInterfaceCreateErr, UnityInterfaces};
pub use logger::{LogMessage, UnityLogType, UnityLogger, UnityRustLogger};
pub use metadata::{MarkerDataType, MarkerDataUnit, MarkerMetaData, MarkerMetaDescriptor};
pub use profiler::{
    CreateMarkerErr, CreationStep, EventEmission, EventType, MarkerCreation, MarkerData,
    MarkerRegistration, ProfilerCreationError, ProfilerMarker, RegisterThreadErr,
    SlotRegistration, ThreadRegistration, UnityProfiler, UnityThreadId,
};
pub use sample::{ManualProfilerSample, SampleViolation, ScopedProfilerSample};
pub use types::{Color32, Vector2Int, Vector3Int};
