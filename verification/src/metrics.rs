//! The service's metrics: seven families, each partitioned by camera, in a
//! registry of their own, kept by the `prometheus` crate.
//!
//! Nothing here is global. `init_metrics` makes the registry and hands back a
//! `Metrics`, which the parts of the service share.

use prometheus::{CounterVec, GaugeVec, HistogramOpts, HistogramVec, Opts, Registry, TextEncoder};
use std::time::Duration;
use vstd::prelude::*;

verus! {

/// Family: whether a camera's stream is connected (1) or not (0).
pub const CAMERA_CONNECTED: &'static str = "camera_stream_connected";

/// Family: segments recorded.
pub const SEGMENTS_RECORDED: &'static str = "camera_segments_recorded_total";

/// Family: segments uploaded.
pub const SEGMENTS_UPLOADED: &'static str = "camera_segments_uploaded_total";

/// Family: failed upload attempts.
pub const UPLOAD_FAILURES: &'static str = "camera_upload_failures_total";

/// Family: seconds that an upload took.
pub const UPLOAD_DURATION: &'static str = "camera_segment_upload_duration_seconds";

/// Family: restarts of the capture process.
pub const FFMPEG_RESTARTS: &'static str = "camera_ffmpeg_restarts_total";

/// Family: bytes recorded.
pub const RECORDING_BYTES: &'static str = "camera_recording_bytes_total";

/// The one label of every family.
pub const CAMERA_LABEL: &'static str = "camera_id";

/// What `render` gives where the metrics cannot be written as text.
pub const ENCODING_ERROR_NOTICE: &'static str = "# Encoding error\n";

/// `prometheus::Registry`, carried as it is: what it holds is spoken of
/// through `registered_families` only.
#[verifier::external_type_specification]
#[verifier::external_body]
pub struct ExRegistry(Registry);

/// `prometheus::Error`, carried as it is and turned into a `MetricsError`.
#[verifier::external_type_specification]
#[verifier::external_body]
pub struct ExPrometheusError(prometheus::Error);

/// A `prometheus::CounterVec` with one label. The verifier does not look
/// inside: the type is an instance of a generic one whose parameters the
/// metrics crate keeps to itself. Only the functions marked as trusted below
/// make or touch one.
#[verifier::external_body]
struct CounterFamily {
    inner: CounterVec,
}

/// A `prometheus::GaugeVec` with one label, held like `CounterFamily`.
#[verifier::external_body]
struct GaugeFamily {
    inner: GaugeVec,
}

/// A `prometheus::HistogramVec` with one label, held like `CounterFamily`.
#[verifier::external_body]
struct HistogramFamily {
    inner: HistogramVec,
}

/// The names of the families that a registry holds: for each collector
/// registered with it, the fully-qualified name of its descriptor.
pub uninterp spec fn registered_families(registry: Registry) -> Set<Seq<char>>;

/// Trusted: `prometheus::Registry::new`, which makes a registry with no
/// collector in it.
#[verifier::external_body]
fn new_registry() -> (registry: Registry)
    ensures
        registered_families(registry) == Set::<Seq<char>>::empty(),
{
    Registry::new()
}

/// Trusted: makes a counter family with `CounterVec::new` from
/// `Opts::new(name, help)` and the label `label`, and registers a clone of it
/// with `Registry::register`. The name has neither namespace nor subsystem,
/// so it is the descriptor's fully-qualified name. Where either call refuses,
/// no collector was added.
#[verifier::external_body]
fn register_counter(registry: &mut Registry, name: &str, help: &str, label: &str) -> (added: Result<
    CounterFamily,
    prometheus::Error,
>)
    ensures
        added is Ok ==> registered_families(*final(registry)) == registered_families(
            *old(registry),
        ).insert(name@),
        added is Err ==> registered_families(*final(registry)) == registered_families(
            *old(registry),
        ),
{
    let inner = CounterVec::new(Opts::new(name, help), &[label])?;
    registry.register(Box::new(inner.clone()))?;
    Ok(CounterFamily { inner })
}

/// Trusted: as `register_counter`, with `GaugeVec::new`.
#[verifier::external_body]
fn register_gauge(registry: &mut Registry, name: &str, help: &str, label: &str) -> (added: Result<
    GaugeFamily,
    prometheus::Error,
>)
    ensures
        added is Ok ==> registered_families(*final(registry)) == registered_families(
            *old(registry),
        ).insert(name@),
        added is Err ==> registered_families(*final(registry)) == registered_families(
            *old(registry),
        ),
{
    let inner = GaugeVec::new(Opts::new(name, help), &[label])?;
    registry.register(Box::new(inner.clone()))?;
    Ok(GaugeFamily { inner })
}

/// Trusted: as `register_counter`, with `HistogramVec::new` from
/// `HistogramOpts::new(name, help)` whose bucket bounds are `buckets`, in
/// seconds.
#[verifier::external_body]
fn register_histogram(
    registry: &mut Registry,
    name: &str,
    help: &str,
    label: &str,
    buckets: &Vec<u32>,
) -> (added: Result<HistogramFamily, prometheus::Error>)
    ensures
        added is Ok ==> registered_families(*final(registry)) == registered_families(
            *old(registry),
        ).insert(name@),
        added is Err ==> registered_families(*final(registry)) == registered_families(
            *old(registry),
        ),
{
    let bounds = buckets.iter().map(|b| (*b).into()).collect();
    let inner = HistogramVec::new(HistogramOpts::new(name, help).buckets(bounds), &[label])?;
    registry.register(Box::new(inner.clone()))?;
    Ok(HistogramFamily { inner })
}

/// Trusted: the text of a `prometheus::Error`, as its `Display` writes it.
#[verifier::external_body]
fn error_text(error: &prometheus::Error) -> (text: String) {
    error.to_string()
}

/// Trusted: adds `amount` to the counter of `family` for the label value
/// `label`, with `get_metric_with_label_values` and `inc_by`. Nothing
/// happens where the crate refuses the label value.
#[verifier::external_body]
fn counter_add(family: &CounterFamily, label: &str, amount: u64) {
    if let Ok(counter) = family.inner.get_metric_with_label_values(&[label]) {
        counter.inc_by(amount as _);
    }
}

/// Trusted: sets the gauge of `family` for the label value `label` to
/// `value`, with `get_metric_with_label_values` and `set`.
#[verifier::external_body]
fn gauge_set(family: &GaugeFamily, label: &str, value: u32) {
    if let Ok(gauge) = family.inner.get_metric_with_label_values(&[label]) {
        gauge.set(value.into());
    }
}

/// Trusted: records a duration of `nanos` nanoseconds, as seconds, in the
/// histogram of `family` for the label value `label`, with
/// `get_metric_with_label_values` and `observe`.
#[verifier::external_body]
fn histogram_observe(family: &HistogramFamily, label: &str, nanos: u64) {
    if let Ok(histogram) = family.inner.get_metric_with_label_values(&[label]) {
        histogram.observe(Duration::from_nanos(nanos).as_secs_f64());
    }
}

/// Trusted: everything the registry holds, gathered with `Registry::gather`
/// and written in the text exposition format by
/// `TextEncoder::encode_to_string`. `None` where the encoder fails.
#[verifier::external_body]
fn encode_text(registry: &Registry) -> (text: Option<String>) {
    TextEncoder::new().encode_to_string(&registry.gather()).ok()
}

/// The names of the seven families.
pub open spec fn family_names() -> Set<Seq<char>> {
    set![
        CAMERA_CONNECTED@,
        SEGMENTS_RECORDED@,
        SEGMENTS_UPLOADED@,
        UPLOAD_FAILURES@,
        UPLOAD_DURATION@,
        FFMPEG_RESTARTS@,
        RECORDING_BYTES@,
    ]
}

/// Upper bounds of the upload duration histogram's buckets, in seconds.
pub open spec fn upload_duration_buckets() -> Seq<u32> {
    seq![1, 5, 10, 30, 60, 120, 300]
}

/// A family could not be made or registered.
#[derive(Debug)]
pub struct MetricsError {
    /// Name of the family.
    pub family: String,
    /// What the metrics crate said.
    pub reason: String,
}

/// The registry and its seven families.
pub struct Metrics {
    registry: Registry,
    camera_connected: GaugeFamily,
    segments_recorded: CounterFamily,
    segments_uploaded: CounterFamily,
    upload_failures: CounterFamily,
    upload_duration: HistogramFamily,
    ffmpeg_restarts: CounterFamily,
    recording_bytes: CounterFamily,
}

fn refused(family: &str, error: &prometheus::Error) -> (e: MetricsError)
    ensures
        e.family@ == family@,
{
    MetricsError { family: String::from_str(family), reason: error_text(error) }
}

/// The text to serve for an encoding result: the text itself, or
/// `ENCODING_ERROR_NOTICE` where there is none.
pub fn text_or_notice(encoded: Option<String>) -> (text: String)
    ensures
        text@ == match encoded {
            Some(t) => t@,
            None => ENCODING_ERROR_NOTICE@,
        },
{
    match encoded {
        Some(t) => t,
        None => String::from_str(ENCODING_ERROR_NOTICE),
    }
}

/// Makes a registry and registers the seven families in it.
///
/// On success the registry holds exactly `family_names()`. Whether a family
/// is accepted is the metrics crate's decision; the first one it refuses is
/// named in the error, and none after it is tried.
pub fn init_metrics() -> (made: Result<Metrics, MetricsError>)
    ensures
        made matches Ok(metrics) ==> metrics.families() == family_names(),
        made matches Err(e) ==> family_names().contains(e.family@),
{
    let mut registry = new_registry();
    let camera_connected = match register_gauge(
        &mut registry,
        CAMERA_CONNECTED,
        "Camera RTSP stream connection status",
        CAMERA_LABEL,
    ) {
        Ok(family) => family,
        Err(e) => {
            return Err(refused(CAMERA_CONNECTED, &e));
        },
    };
    let segments_recorded = match register_counter(
        &mut registry,
        SEGMENTS_RECORDED,
        "Total number of video segments recorded",
        CAMERA_LABEL,
    ) {
        Ok(family) => family,
        Err(e) => {
            return Err(refused(SEGMENTS_RECORDED, &e));
        },
    };
    let segments_uploaded = match register_counter(
        &mut registry,
        SEGMENTS_UPLOADED,
        "Total number of segments uploaded to storage",
        CAMERA_LABEL,
    ) {
        Ok(family) => family,
        Err(e) => {
            return Err(refused(SEGMENTS_UPLOADED, &e));
        },
    };
    let upload_failures = match register_counter(
        &mut registry,
        UPLOAD_FAILURES,
        "Total number of upload failures",
        CAMERA_LABEL,
    ) {
        Ok(family) => family,
        Err(e) => {
            return Err(refused(UPLOAD_FAILURES, &e));
        },
    };
    let buckets: Vec<u32> = vec![1, 5, 10, 30, 60, 120, 300];
    let upload_duration = match register_histogram(
        &mut registry,
        UPLOAD_DURATION,
        "Time taken to upload segments",
        CAMERA_LABEL,
        &buckets,
    ) {
        Ok(family) => family,
        Err(e) => {
            return Err(refused(UPLOAD_DURATION, &e));
        },
    };
    let ffmpeg_restarts = match register_counter(
        &mut registry,
        FFMPEG_RESTARTS,
        "Total number of FFmpeg process restarts",
        CAMERA_LABEL,
    ) {
        Ok(family) => family,
        Err(e) => {
            return Err(refused(FFMPEG_RESTARTS, &e));
        },
    };
    let recording_bytes = match register_counter(
        &mut registry,
        RECORDING_BYTES,
        "Total bytes recorded",
        CAMERA_LABEL,
    ) {
        Ok(family) => family,
        Err(e) => {
            return Err(refused(RECORDING_BYTES, &e));
        },
    };
    assert(registered_families(registry) =~= family_names());
    Ok(
        Metrics {
            registry,
            camera_connected,
            segments_recorded,
            segments_uploaded,
            upload_failures,
            upload_duration,
            ffmpeg_restarts,
            recording_bytes,
        },
    )
}

impl Metrics {
    /// The names of the families in the registry.
    pub closed spec fn families(&self) -> Set<Seq<char>> {
        registered_families(self.registry)
    }

    /// Notes whether the stream of `camera_id` is connected.
    pub fn set_camera_connected(&self, camera_id: &str, connected: bool) {
        let value: u32 = if connected {
            1
        } else {
            0
        };
        gauge_set(&self.camera_connected, camera_id, value);
    }

    /// Counts one recorded segment of `size_bytes` bytes for `camera_id`.
    pub fn segment_recorded(&self, camera_id: &str, size_bytes: u64) {
        counter_add(&self.segments_recorded, camera_id, 1);
        counter_add(&self.recording_bytes, camera_id, size_bytes);
    }

    /// Counts one uploaded segment for `camera_id`, whose upload took
    /// `nanos` nanoseconds from its first attempt on.
    pub fn segment_uploaded(&self, camera_id: &str, nanos: u64) {
        counter_add(&self.segments_uploaded, camera_id, 1);
        histogram_observe(&self.upload_duration, camera_id, nanos);
    }

    /// Counts one failed upload attempt for `camera_id`.
    pub fn upload_failed(&self, camera_id: &str) {
        counter_add(&self.upload_failures, camera_id, 1);
    }

    /// Counts one restart of the capture process of `camera_id`.
    pub fn capture_restarted(&self, camera_id: &str) {
        counter_add(&self.ffmpeg_restarts, camera_id, 1);
    }

    /// The registry's metrics in the text exposition format, or `ENCODING_ERROR_NOTICE`.
    /// Nothing is promised of the text: the values change behind `&self` between calls.
    pub fn render(&self) -> (text: String) {
        text_or_notice(encode_text(&self.registry))
    }
}

} // verus!
