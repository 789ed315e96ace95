use vstd::prelude::*;

use crate::metadata::MarkerMetaData;
use crate::profiler::{lays_out, meta_sendable, EventEmission, EventType, ProfilerMarker, UnityProfiler};

verus! {

/// A sample that ends when it is released: either `Disabled`, when profiling
/// was off as it began, or `Enabled` on a marker whose begin event was sent.
#[derive(Debug)]
pub enum ScopedProfilerSample<'a, 'b> {
    Disabled,
    Enabled { marker: &'a ProfilerMarker, profiler: &'b UnityProfiler },
}

/// A sample that is ended by an explicit call, which must come exactly once
/// before the sample is released.
#[derive(Debug)]
pub enum ManualProfilerSample<'a, 'b> {
    Disabled,
    Enabled { ended: bool, marker: &'a ProfilerMarker, profiler: &'b UnityProfiler },
}

/// A misuse of a manual sample, reported once for each time it happens.
#[derive(Clone, Copy, Debug, PartialEq, Eq, Structural)]
pub enum SampleViolation {
    /// The sample was ended a second time.
    EndedTwice,
    /// The sample was released without being ended.
    NotEnded,
}

/// Whether `e` is an event of kind `kind` on the marker with descriptor
/// `desc`, with no metadata.
pub open spec fn bare_event(e: EventEmission, desc: usize, kind: EventType) -> bool {
    e.desc == desc && e.event_type == kind && e.data is None
}

/// A sample may be closed: when enabled, its profiler has a profiler and its
/// marker a descriptor.
pub open spec fn guard_wf(marker: &ProfilerMarker, profiler: &UnityProfiler) -> bool {
    profiler.spec_available() && marker.spec_desc() != 0
}

impl<'a, 'b> ScopedProfilerSample<'a, 'b> {
    /// The sample is well formed.
    pub open spec fn wf(&self) -> bool {
        match *self {
            ScopedProfilerSample::Disabled => true,
            ScopedProfilerSample::Enabled { marker, profiler } => guard_wf(marker, profiler),
        }
    }

    /// Closes the sample: the end event of its marker when it is enabled,
    /// nothing when it is disabled.
    pub fn release(self) -> (r: Option<EventEmission>)
        requires
            self.wf(),
        ensures
            scoped_release_post(self, r),
    {
        match self {
            ScopedProfilerSample::Disabled => None,
            ScopedProfilerSample::Enabled { marker, profiler } => Some(
                profiler.emit_event(marker, EventType::End, None),
            ),
        }
    }
}

/// What releasing the scoped sample `g` sends.
pub open spec fn scoped_release_post(g: ScopedProfilerSample, r: Option<EventEmission>) -> bool {
    match g {
        ScopedProfilerSample::Disabled => r is None,
        ScopedProfilerSample::Enabled { marker, profiler } => r matches Some(e) && bare_event(
            e,
            marker.spec_desc(),
            EventType::End,
        ),
    }
}

/// What ending the manual sample `pre` does: `post` is the sample after the
/// call and `r` what the call returns.
pub open spec fn end_sample_post(
    pre: ManualProfilerSample,
    post: ManualProfilerSample,
    r: Result<Option<EventEmission>, SampleViolation>,
) -> bool {
    match pre {
        ManualProfilerSample::Disabled => post == pre && r matches Ok(None),
        ManualProfilerSample::Enabled { ended, marker, profiler } => if ended {
            post == pre && r == Err::<Option<EventEmission>, SampleViolation>(
                SampleViolation::EndedTwice,
            )
        } else {
            &&& post == (ManualProfilerSample::Enabled { ended: true, marker, profiler })
            &&& (r matches Ok(Some(e)) && bare_event(e, marker.spec_desc(), EventType::End))
        },
    }
}

/// What releasing the manual sample `g` reports.
pub open spec fn manual_release_post(g: ManualProfilerSample, r: Option<SampleViolation>) -> bool {
    match g {
        ManualProfilerSample::Disabled => r is None,
        ManualProfilerSample::Enabled { ended, .. } => if ended {
            r is None
        } else {
            r == Some(SampleViolation::NotEnded)
        },
    }
}

impl<'a, 'b> ManualProfilerSample<'a, 'b> {
    /// The sample is well formed.
    pub open spec fn wf(&self) -> bool {
        match *self {
            ManualProfilerSample::Disabled => true,
            ManualProfilerSample::Enabled { marker, profiler, .. } => guard_wf(marker, profiler),
        }
    }

    /// Ends the sample: sends the end event of its marker the first time,
    /// reports [`SampleViolation::EndedTwice`] and sends nothing on every
    /// later call, and does nothing on a disabled sample.
    pub fn end_sample(&mut self) -> (r: Result<Option<EventEmission>, SampleViolation>)
        requires
            old(self).wf(),
        ensures
            final(self).wf(),
            end_sample_post(*old(self), *final(self), r),
    {
        match self {
            ManualProfilerSample::Disabled => Ok(None),
            ManualProfilerSample::Enabled { ended, marker, profiler } => {
                if *ended {
                    Err(SampleViolation::EndedTwice)
                } else {
                    *ended = true;
                    Ok(Some(profiler.emit_event(marker, EventType::End, None)))
                }
            },
        }
    }

    /// Releases the sample, reporting [`SampleViolation::NotEnded`] when an
    /// enabled sample was never ended.
    pub fn release(self) -> (r: Option<SampleViolation>)
        ensures
            manual_release_post(self, r),
    {
        match self {
            ManualProfilerSample::Disabled => None,
            ManualProfilerSample::Enabled { ended, .. } => {
                if ended {
                    None
                } else {
                    Some(SampleViolation::NotEnded)
                }
            },
        }
    }
}

/// What beginning a sample of `marker` sends, given the host's live state
/// `host_enabled` and the values `meta`: the begin event and an enabled
/// sample when profiling is on; no event and a disabled sample otherwise.
pub open spec fn begin_post(
    marker: &ProfilerMarker,
    profiler: &UnityProfiler,
    host_enabled: bool,
    meta: Seq<MarkerMetaData>,
    enabled: bool,
    e: Option<EventEmission>,
) -> bool {
    if profiler.spec_enabled(host_enabled) {
        &&& enabled
        &&& e matches Some(ev)
        &&& ev.desc == marker.spec_desc()
        &&& ev.event_type == EventType::Begin
        &&& (ev.data is None <==> marker.spec_shape().len() == 0)
        &&& (ev.data matches Some(d) ==> lays_out(d@, meta))
    } else {
        !enabled && e is None
    }
}

/// The scoped sample `g` is the one a begin on `marker` with `profiler`
/// produced, enabled or not as `enabled` says.
pub open spec fn scoped_is(g: ScopedProfilerSample, marker: &ProfilerMarker, profiler: &UnityProfiler, enabled: bool) -> bool {
    if enabled {
        g == (ScopedProfilerSample::Enabled { marker, profiler })
    } else {
        g is Disabled
    }
}

/// The manual sample `g` is the one a begin on `marker` with `profiler`
/// produced, enabled or not as `enabled` says.
pub open spec fn manual_is(g: ManualProfilerSample, marker: &ProfilerMarker, profiler: &UnityProfiler, enabled: bool) -> bool {
    if enabled {
        g == (ManualProfilerSample::Enabled { ended: false, marker, profiler })
    } else {
        g is Disabled
    }
}

/// Whether the values `meta` fit the marker's shape and can be sent.
pub open spec fn meta_fits(marker: &ProfilerMarker, meta: Seq<MarkerMetaData>) -> bool {
    meta.len() == marker.spec_shape().len() && meta_sendable(meta)
}

impl ProfilerMarker {
    /// Begins a sample that ends when released, carrying the values `meta`.
    /// `host_enabled` is the host's live answer on whether profiling is on.
    pub fn sample_scope_with_meta<'a, 'b>(
        &'a self,
        profiler: &'b UnityProfiler,
        host_enabled: bool,
        meta: &Vec<MarkerMetaData>,
    ) -> (r: (ScopedProfilerSample<'a, 'b>, Option<EventEmission>))
        requires
            profiler.spec_enabled(host_enabled) ==> self.spec_desc() != 0,
            meta_fits(self, meta@),
        ensures
            r.0.wf(),
            scoped_is(r.0, self, profiler, profiler.spec_enabled(host_enabled)),
            begin_post(self, profiler, host_enabled, meta@, r.0 is Enabled, r.1),
    {
        if !profiler.is_enabled(host_enabled) {
            return (ScopedProfilerSample::Disabled, None);
        }
        let e = profiler.emit_event(self, EventType::Begin, Some(meta));
        (ScopedProfilerSample::Enabled { marker: self, profiler }, Some(e))
    }

    /// Begins a sample that is ended by an explicit call, carrying the
    /// values `meta`.
    pub fn sample_manual_with_meta<'a, 'b>(
        &'a self,
        profiler: &'b UnityProfiler,
        host_enabled: bool,
        meta: &Vec<MarkerMetaData>,
    ) -> (r: (ManualProfilerSample<'a, 'b>, Option<EventEmission>))
        requires
            profiler.spec_enabled(host_enabled) ==> self.spec_desc() != 0,
            meta_fits(self, meta@),
        ensures
            r.0.wf(),
            manual_is(r.0, self, profiler, profiler.spec_enabled(host_enabled)),
            begin_post(self, profiler, host_enabled, meta@, r.0 is Enabled, r.1),
    {
        if !profiler.is_enabled(host_enabled) {
            return (ManualProfilerSample::Disabled, None);
        }
        let e = profiler.emit_event(self, EventType::Begin, Some(meta));
        (ManualProfilerSample::Enabled { ended: false, marker: self, profiler }, Some(e))
    }

    /// Sends one event of kind [`EventType::Single`] carrying `meta` when
    /// profiling is on, and nothing otherwise; no sample is opened.
    pub fn single_timeless_with_meta(
        &self,
        profiler: &UnityProfiler,
        host_enabled: bool,
        meta: &Vec<MarkerMetaData>,
    ) -> (r: Option<EventEmission>)
        requires
            profiler.spec_enabled(host_enabled) ==> self.spec_desc() != 0,
            meta_fits(self, meta@),
        ensures
            r is Some <==> profiler.spec_enabled(host_enabled),
            r matches Some(ev) ==> {
                &&& ev.desc == self.spec_desc()
                &&& ev.event_type == EventType::Single
                &&& (ev.data is None <==> self.spec_shape().len() == 0)
                &&& (ev.data matches Some(d) ==> lays_out(d@, meta@))
            },
    {
        if !profiler.is_enabled(host_enabled) {
            return None;
        }
        Some(profiler.emit_event(self, EventType::Single, Some(meta)))
    }

    /// Begins a sample without metadata that ends when released.
    pub fn sample_scope<'a, 'b>(&'a self, profiler: &'b UnityProfiler, host_enabled: bool) -> (r: (
        ScopedProfilerSample<'a, 'b>,
        Option<EventEmission>,
    ))
        requires
            profiler.spec_enabled(host_enabled) ==> self.spec_desc() != 0,
            self.spec_shape().len() == 0,
        ensures
            r.0.wf(),
            scoped_is(r.0, self, profiler, profiler.spec_enabled(host_enabled)),
            begin_post(self, profiler, host_enabled, Seq::empty(), r.0 is Enabled, r.1),
            r.1 matches Some(ev) ==> ev.data is None,
    {
        let none: Vec<MarkerMetaData> = Vec::new();
        self.sample_scope_with_meta(profiler, host_enabled, &none)
    }

    /// Begins a sample without metadata that is ended by an explicit call.
    pub fn sample_manual<'a, 'b>(&'a self, profiler: &'b UnityProfiler, host_enabled: bool) -> (r: (
        ManualProfilerSample<'a, 'b>,
        Option<EventEmission>,
    ))
        requires
            profiler.spec_enabled(host_enabled) ==> self.spec_desc() != 0,
            self.spec_shape().len() == 0,
        ensures
            r.0.wf(),
            manual_is(r.0, self, profiler, profiler.spec_enabled(host_enabled)),
            begin_post(self, profiler, host_enabled, Seq::empty(), r.0 is Enabled, r.1),
            r.1 matches Some(ev) ==> ev.data is None,
    {
        let none: Vec<MarkerMetaData> = Vec::new();
        self.sample_manual_with_meta(profiler, host_enabled, &none)
    }

    /// Sends one event of kind [`EventType::Single`] without metadata when
    /// profiling is on, and nothing otherwise.
    pub fn single_timeless(&self, profiler: &UnityProfiler, host_enabled: bool) -> (r: Option<
        EventEmission,
    >)
        requires
            profiler.spec_enabled(host_enabled) ==> self.spec_desc() != 0,
            self.spec_shape().len() == 0,
        ensures
            r is Some <==> profiler.spec_enabled(host_enabled),
            r matches Some(ev) ==> bare_event(ev, self.spec_desc(), EventType::Single),
    {
        let none: Vec<MarkerMetaData> = Vec::new();
        self.single_timeless_with_meta(profiler, host_enabled, &none)
    }
}

/// The events an optional emission adds to the host's trace, each as the
/// marker's descriptor and the event's kind.
pub open spec fn trace(e: Option<EventEmission>) -> Seq<(usize, EventType)> {
    match e {
        Some(ev) => seq![(ev.desc, ev.event_type)],
        None => Seq::empty(),
    }
}

/// A scoped sample begun while profiling is on and then released puts
/// exactly one begin event and then exactly one end event of its marker on
/// the trace, and nothing else.
pub proof fn lemma_scoped_round_trip(
    marker: &ProfilerMarker,
    profiler: &UnityProfiler,
    host_enabled: bool,
    meta: Seq<MarkerMetaData>,
    g: ScopedProfilerSample,
    begin: Option<EventEmission>,
    end: Option<EventEmission>,
)
    requires
        profiler.spec_enabled(host_enabled),
        scoped_is(g, marker, profiler, profiler.spec_enabled(host_enabled)),
        begin_post(marker, profiler, host_enabled, meta, g is Enabled, begin),
        scoped_release_post(g, end),
    ensures
        trace(begin) + trace(end) == seq![
            (marker.spec_desc(), EventType::Begin),
            (marker.spec_desc(), EventType::End),
        ],
{
    assert(trace(begin) + trace(end) =~= seq![
        (marker.spec_desc(), EventType::Begin),
        (marker.spec_desc(), EventType::End),
    ]);
}

/// Whether `steps` and `results` record successive calls of `end_sample`:
/// call `i` takes `steps[i]` to `steps[i + 1]` and returns `results[i]`.
pub open spec fn end_chain(
    steps: Seq<ManualProfilerSample>,
    results: Seq<Result<Option<EventEmission>, SampleViolation>>,
) -> bool {
    &&& steps.len() == results.len() + 1
    &&& forall|i: int|
        0 <= i < results.len() ==> end_sample_post(steps[i], steps[i + 1], #[trigger] results[i])
}

/// The events a run of `end_sample` calls sends.
pub open spec fn end_trace(results: Seq<Result<Option<EventEmission>, SampleViolation>>) -> Seq<
    (usize, EventType),
>
    decreases results.len(),
{
    if results.len() == 0 {
        Seq::empty()
    } else {
        end_trace(results.drop_last()) + match results.last() {
            Ok(e) => trace(e),
            Err(_) => Seq::empty(),
        }
    }
}

/// The number of misuses a run of `end_sample` calls reports.
pub open spec fn violations(results: Seq<Result<Option<EventEmission>, SampleViolation>>) -> nat
    decreases results.len(),
{
    if results.len() == 0 {
        0
    } else {
        violations(results.drop_last()) + if results.last() is Err {
            1nat
        } else {
            0nat
        }
    }
}

/// A sample begun while profiling is off sends nothing over its whole life,
/// however many times it is ended, and its release reports nothing.
pub proof fn lemma_disabled_manual_silent(
    marker: &ProfilerMarker,
    profiler: &UnityProfiler,
    host_enabled: bool,
    meta: Seq<MarkerMetaData>,
    begin: Option<EventEmission>,
    steps: Seq<ManualProfilerSample>,
    results: Seq<Result<Option<EventEmission>, SampleViolation>>,
    released: Option<SampleViolation>,
)
    requires
        !profiler.spec_enabled(host_enabled),
        end_chain(steps, results),
        manual_is(steps[0], marker, profiler, profiler.spec_enabled(host_enabled)),
        begin_post(marker, profiler, host_enabled, meta, steps[0] is Enabled, begin),
        manual_release_post(steps.last(), released),
    ensures
        trace(begin) + end_trace(results) == Seq::<(usize, EventType)>::empty(),
        violations(results) == 0,
        released is None,
    decreases results.len(),
{
    if results.len() > 0 {
        let k = results.len() - 1;
        assert(end_chain(steps.drop_last(), results.drop_last())) by {
            assert forall|i: int| 0 <= i < results.drop_last().len() implies end_sample_post(
                steps.drop_last()[i],
                steps.drop_last()[i + 1],
                #[trigger] results.drop_last()[i],
            ) by {
                assert(end_sample_post(steps[i], steps[i + 1], results[i]));
            }
        }
        assert(end_sample_post(steps[k], steps[k + 1], results[k]));
        lemma_disabled_chain(steps, results, k);
        lemma_disabled_manual_silent(
            marker,
            profiler,
            host_enabled,
            meta,
            begin,
            steps.drop_last(),
            results.drop_last(),
            None,
        );
        assert(end_trace(results) =~= Seq::<(usize, EventType)>::empty());
    } else {
        assert(trace(begin) + end_trace(results) =~= Seq::<(usize, EventType)>::empty());
    }
}

/// In a run of `end_sample` calls on a disabled sample, every sample along
/// the way is still disabled.
proof fn lemma_disabled_chain(
    steps: Seq<ManualProfilerSample>,
    results: Seq<Result<Option<EventEmission>, SampleViolation>>,
    n: int,
)
    requires
        end_chain(steps, results),
        steps[0] is Disabled,
        0 <= n <= results.len(),
    ensures
        steps[n] is Disabled,
    decreases n,
{
    if n > 0 {
        lemma_disabled_chain(steps, results, n - 1);
        assert(end_sample_post(steps[n - 1], steps[n], results[n - 1]));
    }
}

/// A scoped sample begun while profiling is off sends nothing, either when
/// it begins or when it is released.
pub proof fn lemma_disabled_scoped_silent(
    marker: &ProfilerMarker,
    profiler: &UnityProfiler,
    host_enabled: bool,
    meta: Seq<MarkerMetaData>,
    g: ScopedProfilerSample,
    begin: Option<EventEmission>,
    end: Option<EventEmission>,
)
    requires
        !profiler.spec_enabled(host_enabled),
        scoped_is(g, marker, profiler, profiler.spec_enabled(host_enabled)),
        begin_post(marker, profiler, host_enabled, meta, g is Enabled, begin),
        scoped_release_post(g, end),
    ensures
        trace(begin) + trace(end) == Seq::<(usize, EventType)>::empty(),
{
    assert(trace(begin) + trace(end) =~= Seq::<(usize, EventType)>::empty());
}

/// After `n >= 1` calls of `end_sample` on an enabled sample that was not
/// ended, the sample is ended, one end event was sent, and each call after
/// the first reported one misuse.
proof fn lemma_enabled_chain(
    marker: &ProfilerMarker,
    profiler: &UnityProfiler,
    steps: Seq<ManualProfilerSample>,
    results: Seq<Result<Option<EventEmission>, SampleViolation>>,
    n: int,
)
    requires
        end_chain(steps, results),
        steps[0] == (ManualProfilerSample::Enabled { ended: false, marker, profiler }),
        1 <= n <= results.len(),
    ensures
        steps[n] == (ManualProfilerSample::Enabled { ended: true, marker, profiler }),
        violations(results.take(n)) == n - 1,
        end_trace(results.take(n)) == seq![(marker.spec_desc(), EventType::End)],
    decreases n,
{
    assert(end_sample_post(steps[n - 1], steps[n], results[n - 1]));
    let t = results.take(n);
    assert(t.drop_last() =~= results.take(n - 1));
    assert(t.last() == results[n - 1]);
    if n == 1 {
        let none = Seq::<Result<Option<EventEmission>, SampleViolation>>::empty();
        assert(results.take(0) =~= none);
        assert(end_trace(none) == Seq::<(usize, EventType)>::empty());
        assert(violations(none) == 0);
        assert(end_trace(t) == end_trace(none) + match t.last() {
            Ok(e) => trace(e),
            Err(_) => Seq::empty(),
        });
        assert(end_trace(t) =~= seq![(marker.spec_desc(), EventType::End)]);
    } else {
        lemma_enabled_chain(marker, profiler, steps, results, n - 1);
        assert(end_trace(results.take(n)) =~= end_trace(results.take(n - 1)));
    }
}

/// On a manual sample begun while profiling is on, each misuse is reported
/// exactly once: after `k` calls of `end_sample` and its release, the calls
/// after the first report one misuse each, a release without any end
/// reports one, and exactly one end event is sent when `k` is at least one.
pub proof fn lemma_manual_violations_once(
    marker: &ProfilerMarker,
    profiler: &UnityProfiler,
    steps: Seq<ManualProfilerSample>,
    results: Seq<Result<Option<EventEmission>, SampleViolation>>,
    released: Option<SampleViolation>,
)
    requires
        end_chain(steps, results),
        steps[0] == (ManualProfilerSample::Enabled { ended: false, marker, profiler }),
        manual_release_post(steps.last(), released),
    ensures
        results.len() == 0 ==> released == Some(SampleViolation::NotEnded),
        results.len() == 0 ==> end_trace(results) == Seq::<(usize, EventType)>::empty(),
        results.len() > 0 ==> released is None,
        results.len() > 0 ==> violations(results) == results.len() - 1,
        results.len() > 0 ==> end_trace(results) == seq![(marker.spec_desc(), EventType::End)],
{
    let k = results.len() as int;
    if k > 0 {
        lemma_enabled_chain(marker, profiler, steps, results, k);
        assert(results.take(k) =~= results);
    }
}

} // verus!
