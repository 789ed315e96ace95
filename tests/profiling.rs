use unity_native::{
    CreateMarkerErr, CreationStep, EventType, ManualProfilerSample, MarkerCreation,
    MarkerDataType, MarkerDataUnit, MarkerMetaData, MarkerMetaDescriptor, ProfilerMarker,
    RegisterThreadErr, SampleViolation, ScopedProfilerSample, SlotRegistration, UnityInterface,
    UnityProfiler, UnityThreadId,
};

fn profiler(available: bool) -> UnityProfiler {
    UnityProfiler::try_from_table(0x1000, Some(available)).unwrap()
}

fn expect_register(step: CreationStep) -> (MarkerCreation, SlotRegistration) {
    match step {
        CreationStep::Register(c, s) => (c, s),
        CreationStep::Finished(_) => panic!("registration ended early"),
    }
}

fn plain_marker(p: &UnityProfiler, desc: usize) -> ProfilerMarker {
    let (creation, _) = p.create_marker("plain");
    match creation.advance(0, desc) {
        CreationStep::Finished(Ok(m)) => m,
        _ => panic!("marker not created"),
    }
}

#[test]
fn is_enabled_follows_host_when_available() {
    let p = profiler(true);
    assert!(p.is_enabled(true));
    assert!(!p.is_enabled(false));
    assert_eq!(p.is_enabled(true), p.is_enabled(true));
    assert_eq!(p.is_enabled(false), p.is_enabled(false));
}

#[test]
fn is_enabled_false_without_profiler() {
    let p = profiler(false);
    assert!(!p.is_enabled(true));
    assert!(!p.is_enabled(false));
}

#[test]
fn event_type_codes() {
    assert_eq!(EventType::Begin.code(), 0);
    assert_eq!(EventType::End.code(), 1);
    assert_eq!(EventType::Single.code(), 2);
}

#[test]
fn create_marker_without_metadata() {
    let p = profiler(true);
    let (creation, reg) = p.create_marker("frame");
    assert_eq!(reg.name, b"frame\0".to_vec());
    assert_eq!(reg.event_data_count, 0);
    match creation.advance(0, 0x2000) {
        CreationStep::Finished(Ok(m)) => {
            assert_eq!(m.raw(), 0x2000);
            assert_eq!(m.meta_count(), 0);
        }
        _ => panic!("marker not created"),
    }
}

#[test]
fn create_marker_failure_keeps_code() {
    let p = profiler(true);
    let (creation, _) = p.create_marker("frame");
    assert!(matches!(
        creation.advance(-3, 0),
        CreationStep::Finished(Err(CreateMarkerErr::Marker(-3)))
    ));
}

#[test]
fn slot_failure_aborts_creation() {
    let p = profiler(true);
    let shape = vec![
        MarkerMetaDescriptor::new("a", MarkerDataType::Uint64, MarkerDataUnit::Bytes),
        MarkerMetaDescriptor::new("b", MarkerDataType::Double, MarkerDataUnit::Percent),
    ];
    let (creation, _) = p.create_marker_with_data("m", shape);
    let (creation, slot0) = expect_register(creation.advance(0, 0x3000));
    assert_eq!(slot0.type_tag, 5);
    assert_eq!(slot0.unit, 2);
    assert!(matches!(
        creation.advance(7, 0),
        CreationStep::Finished(Err(CreateMarkerErr::MarkerMeta(7)))
    ));
}

#[test]
fn count_and_label_scenario() {
    let p = profiler(true);
    let shape = vec![
        MarkerMetaDescriptor::new("count", MarkerDataType::Int32, MarkerDataUnit::Undefined),
        MarkerMetaDescriptor::new("label", MarkerDataType::String, MarkerDataUnit::Undefined),
    ];
    let (creation, reg) = p.create_marker_with_data("work", shape);
    assert_eq!(reg.name, b"work\0".to_vec());
    assert_eq!(reg.event_data_count, 2);

    let (creation, slot0) = expect_register(creation.advance(0, 0x2000));
    assert_eq!(slot0.desc, 0x2000);
    assert_eq!(slot0.index, 0);
    assert_eq!(slot0.name, b"count\0".to_vec());
    assert_eq!(slot0.type_tag, 2);
    assert_eq!(slot0.unit, 0);

    let (creation, slot1) = expect_register(creation.advance(0, 0));
    assert_eq!(slot1.desc, 0x2000);
    assert_eq!(slot1.index, 1);
    assert_eq!(slot1.name, b"label\0".to_vec());
    assert_eq!(slot1.type_tag, 8);
    assert_eq!(slot1.unit, 0);

    let marker = match creation.advance(0, 0) {
        CreationStep::Finished(Ok(m)) => m,
        _ => panic!("marker not created"),
    };
    assert_eq!(marker.raw(), 0x2000);

    let meta = vec![MarkerMetaData::Int32(42), MarkerMetaData::String("ok")];
    let (guard, begin) = marker.sample_scope_with_meta(&p, true, &meta);
    assert!(matches!(guard, ScopedProfilerSample::Enabled { .. }));
    let begin = begin.unwrap();
    assert_eq!(begin.desc, 0x2000);
    assert_eq!(begin.event_type, EventType::Begin);
    let data = begin.data.unwrap();
    assert_eq!(data.len(), 2);
    assert_eq!(data[0].size, 4);
    assert_eq!(data[0].type_tag, 2);
    assert_eq!(data[0].bytes, 42i32.to_le_bytes().to_vec());
    assert_eq!(data[1].size, 3);
    assert_eq!(data[1].type_tag, 8);
    assert_eq!(data[1].bytes, b"ok\0".to_vec());

    let end = guard.release().unwrap();
    assert_eq!(end.desc, 0x2000);
    assert_eq!(end.event_type, EventType::End);
    assert!(end.data.is_none());
}

#[test]
fn scoped_sample_round_trip() {
    let p = profiler(true);
    let m = plain_marker(&p, 0x55);
    let (guard, begin) = m.sample_scope(&p, true);
    let begin = begin.unwrap();
    assert_eq!((begin.desc, begin.event_type), (0x55, EventType::Begin));
    assert!(begin.data.is_none());
    let end = guard.release().unwrap();
    assert_eq!((end.desc, end.event_type), (0x55, EventType::End));
}

#[test]
fn scoped_sample_disabled_is_silent() {
    let p = profiler(true);
    let m = plain_marker(&p, 0x55);
    let (guard, begin) = m.sample_scope(&p, false);
    assert!(begin.is_none());
    assert!(matches!(guard, ScopedProfilerSample::Disabled));
    assert!(guard.release().is_none());

    let unavailable = profiler(false);
    let (guard, begin) = m.sample_scope(&unavailable, true);
    assert!(begin.is_none());
    assert!(guard.release().is_none());
}

#[test]
fn manual_sample_disabled_is_silent() {
    let p = profiler(true);
    let m = plain_marker(&p, 0x55);
    let (mut guard, begin) = m.sample_manual(&p, false);
    assert!(begin.is_none());
    assert!(matches!(guard, ManualProfilerSample::Disabled));
    for _ in 0..3 {
        assert!(matches!(guard.end_sample(), Ok(None)));
    }
    assert!(guard.release().is_none());
}

#[test]
fn manual_sample_ends_once() {
    let p = profiler(true);
    let m = plain_marker(&p, 0x66);
    let (mut guard, begin) = m.sample_manual(&p, true);
    assert_eq!(begin.unwrap().event_type, EventType::Begin);
    let end = guard.end_sample().unwrap().unwrap();
    assert_eq!((end.desc, end.event_type), (0x66, EventType::End));
    assert!(end.data.is_none());
    assert!(guard.release().is_none());
}

#[test]
fn manual_sample_ended_twice_is_reported() {
    let p = profiler(true);
    let m = plain_marker(&p, 0x66);
    let (mut guard, _) = m.sample_manual(&p, true);
    assert!(matches!(guard.end_sample(), Ok(Some(_))));
    assert!(matches!(guard.end_sample(), Err(SampleViolation::EndedTwice)));
    assert!(matches!(guard.end_sample(), Err(SampleViolation::EndedTwice)));
    assert!(guard.release().is_none());
}

#[test]
fn manual_sample_never_ended_is_reported() {
    let p = profiler(true);
    let m = plain_marker(&p, 0x66);
    let (guard, _) = m.sample_manual(&p, true);
    assert_eq!(guard.release(), Some(SampleViolation::NotEnded));
}

#[test]
fn single_timeless_event() {
    let p = profiler(true);
    let m = plain_marker(&p, 0x77);
    let e = m.single_timeless(&p, true).unwrap();
    assert_eq!((e.desc, e.event_type), (0x77, EventType::Single));
    assert!(e.data.is_none());
    assert!(m.single_timeless(&p, false).is_none());
}

#[test]
fn single_timeless_with_meta_event() {
    let p = profiler(true);
    let shape = vec![MarkerMetaDescriptor::new(
        "bytes",
        MarkerDataType::Blob8,
        MarkerDataUnit::Bytes,
    )];
    let (creation, _) = p.create_marker_with_data("blob", shape);
    let (creation, _) = expect_register(creation.advance(0, 0x88));
    let marker = match creation.advance(0, 0) {
        CreationStep::Finished(Ok(m)) => m,
        _ => panic!("marker not created"),
    };
    let payload = [1u8, 2, 3, 4, 5];
    let meta = vec![MarkerMetaData::Bytes(&payload)];
    let e = marker.single_timeless_with_meta(&p, true, &meta).unwrap();
    assert_eq!(e.event_type, EventType::Single);
    let data = e.data.unwrap();
    assert_eq!(data[0].size, 5);
    assert_eq!(data[0].type_tag, 11);
    assert_eq!(data[0].bytes, payload.to_vec());
    assert!(marker.single_timeless_with_meta(&p, false, &meta).is_none());
}

#[test]
fn register_thread_rejects_non_ascii_name() {
    let p = profiler(true);
    assert!(matches!(
        p.register_current_thread("group", "wörker"),
        Err(RegisterThreadErr::NonAscii)
    ));
    assert!(matches!(
        p.register_current_thread("grüppe", "worker\0"),
        Err(RegisterThreadErr::NonAscii)
    ));
}

#[test]
fn register_thread_rejects_nul() {
    let p = profiler(true);
    assert!(matches!(
        p.register_current_thread("gr\0up", "worker"),
        Err(RegisterThreadErr::Nul)
    ));
    assert!(matches!(
        p.register_current_thread("group", "w\0"),
        Err(RegisterThreadErr::Nul)
    ));
}

#[test]
fn register_thread_names() {
    let p = profiler(true);
    let reg = p.register_current_thread("jobs", "worker 1").unwrap();
    assert_eq!(reg.group_name, b"jobs\0".to_vec());
    assert_eq!(reg.thread_name, b"worker 1\0".to_vec());
}

#[test]
fn thread_outcomes() {
    let p = profiler(true);
    assert_eq!(p.thread_registered(0, 9).unwrap(), UnityThreadId(9));
    assert!(matches!(
        p.thread_registered(4, 9),
        Err(RegisterThreadErr::Unity(4))
    ));
    assert_eq!(p.unregister_current_thread(), UnityThreadId(0));
    assert_eq!(p.thread_unregistered(0), Ok(()));
    assert_eq!(p.thread_unregistered(-1), Err(-1));
}
