//! The normalized model of a store: its configuration, code assets and measurements.
//!
//! A measurement that was never taken is `None`. Paths are held as text. Quotients are
//! exact fractions, and statement timings are the picoseconds that MySQL reports.

use crate::ratio::{self, Ratio};
use crate::text;
use vstd::prelude::*;
use vstd::string::*;

verus! {

/// What became of a probe.
#[derive(Debug, Clone, PartialEq, Eq)]
pub enum ProbeOutcome {
    NotAttempted,
    Succeeded,
    Failed { reason: String },
}

/// What a [`ProbeOutcome`] says.
pub enum ProbeOutcomeView {
    NotAttempted,
    Succeeded,
    Failed { reason: Seq<char> },
}

impl View for ProbeOutcome {
    type V = ProbeOutcomeView;

    open spec fn view(&self) -> ProbeOutcomeView {
        match self {
            ProbeOutcome::NotAttempted => ProbeOutcomeView::NotAttempted,
            ProbeOutcome::Succeeded => ProbeOutcomeView::Succeeded,
            ProbeOutcome::Failed { reason } => ProbeOutcomeView::Failed { reason: reason@ },
        }
    }
}

impl ProbeOutcomeView {
    pub open spec fn unset() -> ProbeOutcomeView {
        ProbeOutcomeView::NotAttempted
    }

    /// The outcome in words.
    pub open spec fn described(self) -> Seq<char> {
        match self {
            ProbeOutcomeView::NotAttempted => "not attempted"@,
            ProbeOutcomeView::Succeeded => "succeeded"@,
            ProbeOutcomeView::Failed { reason } => "failed: "@ + reason,
        }
    }
}

impl Default for ProbeOutcome {
    fn default() -> (r: ProbeOutcome)
        ensures
            r@ == ProbeOutcomeView::unset(),
    {
        ProbeOutcome::NotAttempted
    }
}

impl ProbeOutcome {
    pub fn failed(reason: &str) -> (r: ProbeOutcome)
        ensures
            r@ == (ProbeOutcomeView::Failed { reason: reason@ }),
    {
        ProbeOutcome::Failed { reason: reason.to_owned() }
    }

    pub fn is_success(&self) -> (r: bool)
        ensures
            r == (self@ is Succeeded),
    {
        match self {
            ProbeOutcome::Succeeded => true,
            _ => false,
        }
    }

    /// True when the probe tells nothing about the service.
    pub fn is_inconclusive(&self) -> (r: bool)
        ensures
            r == !(self@ is Succeeded),
    {
        !self.is_success()
    }

    /// The outcome in words.
    pub fn describe(&self) -> (r: String)
        ensures
            r@ == self@.described(),
    {
        match self {
            ProbeOutcome::NotAttempted => "not attempted".to_owned(),
            ProbeOutcome::Succeeded => "succeeded".to_owned(),
            ProbeOutcome::Failed { reason } => "failed: ".to_owned().concat(reason.as_str()),
        }
    }
}

/// Where PHP-FPM figures come from.
#[derive(Debug, Clone, Copy, PartialEq, Eq, Structural)]
pub enum WorkerMetricSource {
    /// No pool config and no worker process.
    NotDetected,
    /// Sizing limits with no live data.
    ConfigOnly,
    /// Worker processes found in `/proc`; a worker blocked on I/O looks idle there.
    ProcScan,
    /// The pool's own status page.
    FpmStatus,
}

impl WorkerMetricSource {
    pub open spec fn unset() -> WorkerMetricSource {
        WorkerMetricSource::NotDetected
    }
}

impl Default for WorkerMetricSource {
    fn default() -> (r: WorkerMetricSource)
        ensures
            r == WorkerMetricSource::unset(),
    {
        WorkerMetricSource::NotDetected
    }
}

impl WorkerMetricSource {
    /// Only the scoreboard knows how many workers are really busy.
    pub fn has_reliable_saturation(self) -> (r: bool)
        ensures
            r == (self == WorkerMetricSource::FpmStatus),
    {
        match self {
            WorkerMetricSource::FpmStatus => true,
            _ => false,
        }
    }

    pub open spec fn described(self) -> Seq<char> {
        match self {
            WorkerMetricSource::NotDetected => "not detected"@,
            WorkerMetricSource::ConfigOnly => "pool config only"@,
            WorkerMetricSource::ProcScan => "/proc scan (approximate)"@,
            WorkerMetricSource::FpmStatus => "PHP-FPM status page"@,
        }
    }

    /// The source in words.
    pub fn describe(self) -> (r: String)
        ensures
            r@ == self.described(),
    {
        match self {
            WorkerMetricSource::NotDetected => "not detected".to_owned(),
            WorkerMetricSource::ConfigOnly => "pool config only".to_owned(),
            WorkerMetricSource::ProcScan => "/proc scan (approximate)".to_owned(),
            WorkerMetricSource::FpmStatus => "PHP-FPM status page".to_owned(),
        }
    }
}

/// PHP-FPM worker figures and pool sizing.
#[derive(Debug, Clone)]
pub struct PhpWorkerMetrics {
    pub is_detected: bool,
    pub source: WorkerMetricSource,
    /// Where the figures were read.
    pub origin: Option<String>,
    pub pool_name: Option<String>,
    pub process_manager: Option<String>,
    pub active_workers: Option<u64>,
    pub idle_workers: Option<u64>,
    pub total_workers: Option<u64>,
    pub max_children: Option<u64>,
    pub listen_queue: Option<u64>,
    pub listen_queue_len: Option<u64>,
    pub max_children_reached: Option<u64>,
    pub slow_requests: Option<u64>,
    /// Active workers against the ceiling, in percent.
    pub saturation_pct: Option<Ratio>,
    pub worker_memory_mb: Option<Ratio>,
    pub worker_memory_measured: bool,
    pub total_pool_memory_mb: Option<Ratio>,
    pub host_total_memory_mb: Option<Ratio>,
    pub oom_risk: bool,
}

/// What a [`PhpWorkerMetrics`] holds.
#[verifier::ext_equal]
pub struct PhpWorkerMetricsView {
    pub is_detected: bool,
    pub source: WorkerMetricSource,
    pub origin: Option<Seq<char>>,
    pub pool_name: Option<Seq<char>>,
    pub process_manager: Option<Seq<char>>,
    pub active_workers: Option<u64>,
    pub idle_workers: Option<u64>,
    pub total_workers: Option<u64>,
    pub max_children: Option<u64>,
    pub listen_queue: Option<u64>,
    pub listen_queue_len: Option<u64>,
    pub max_children_reached: Option<u64>,
    pub slow_requests: Option<u64>,
    pub saturation_pct: Option<(nat, nat)>,
    pub worker_memory_mb: Option<(nat, nat)>,
    pub worker_memory_measured: bool,
    pub total_pool_memory_mb: Option<(nat, nat)>,
    pub host_total_memory_mb: Option<(nat, nat)>,
    pub oom_risk: bool,
}

impl View for PhpWorkerMetrics {
    type V = PhpWorkerMetricsView;

    open spec fn view(&self) -> PhpWorkerMetricsView {
        PhpWorkerMetricsView {
            is_detected: self.is_detected,
            source: self.source,
            origin: text::text_opt(self.origin),
            pool_name: text::text_opt(self.pool_name),
            process_manager: text::text_opt(self.process_manager),
            active_workers: self.active_workers,
            idle_workers: self.idle_workers,
            total_workers: self.total_workers,
            max_children: self.max_children,
            listen_queue: self.listen_queue,
            listen_queue_len: self.listen_queue_len,
            max_children_reached: self.max_children_reached,
            slow_requests: self.slow_requests,
            saturation_pct: ratio::ratio_opt(self.saturation_pct),
            worker_memory_mb: ratio::ratio_opt(self.worker_memory_mb),
            worker_memory_measured: self.worker_memory_measured,
            total_pool_memory_mb: ratio::ratio_opt(self.total_pool_memory_mb),
            host_total_memory_mb: ratio::ratio_opt(self.host_total_memory_mb),
            oom_risk: self.oom_risk,
        }
    }
}

impl PhpWorkerMetricsView {
    /// Nothing measured.
    pub open spec fn unset() -> PhpWorkerMetricsView {
        PhpWorkerMetricsView {
            is_detected: false,
            source: WorkerMetricSource::unset(),
            origin: None,
            pool_name: None,
            process_manager: None,
            active_workers: None,
            idle_workers: None,
            total_workers: None,
            max_children: None,
            listen_queue: None,
            listen_queue_len: None,
            max_children_reached: None,
            slow_requests: None,
            saturation_pct: None,
            worker_memory_mb: None,
            worker_memory_measured: false,
            total_pool_memory_mb: None,
            host_total_memory_mb: None,
            oom_risk: false,
        }
    }
}

impl Default for PhpWorkerMetrics {
    fn default() -> (r: PhpWorkerMetrics)
        ensures
            r@ == PhpWorkerMetricsView::unset(),
    {
        let r = PhpWorkerMetrics {
            is_detected: false,
            source: WorkerMetricSource::default(),
            origin: None,
            pool_name: None,
            process_manager: None,
            active_workers: None,
            idle_workers: None,
            total_workers: None,
            max_children: None,
            listen_queue: None,
            listen_queue_len: None,
            max_children_reached: None,
            slow_requests: None,
            saturation_pct: None,
            worker_memory_mb: None,
            worker_memory_measured: false,
            total_pool_memory_mb: None,
            host_total_memory_mb: None,
            oom_risk: false,
        };
        r
    }
}

/// What a Redis or Valkey instance reported.
#[derive(Debug, Clone)]
pub struct RedisStatus {
    pub is_configured: bool,
    pub is_reachable: bool,
    pub endpoint: Option<String>,
    pub probe: ProbeOutcome,
    pub version: Option<String>,
    pub used_memory_bytes: Option<u64>,
    pub used_memory_peak_bytes: Option<u64>,
    pub maxmemory_bytes: Option<u64>,
    pub maxmemory_policy: Option<String>,
    pub mem_fragmentation_ratio: Option<Ratio>,
    /// Server-wide, whatever database the keys were in.
    pub evicted_keys: Option<u64>,
    pub connected_clients: Option<u64>,
    pub blocked_clients: Option<u64>,
    pub keyspace_hits: Option<u64>,
    pub keyspace_misses: Option<u64>,
    pub hit_ratio: Option<Ratio>,
    pub ops_per_sec: Option<u64>,
}

/// What a [`RedisStatus`] holds.
#[verifier::ext_equal]
pub struct RedisStatusView {
    pub is_configured: bool,
    pub is_reachable: bool,
    pub endpoint: Option<Seq<char>>,
    pub probe: ProbeOutcomeView,
    pub version: Option<Seq<char>>,
    pub used_memory_bytes: Option<u64>,
    pub used_memory_peak_bytes: Option<u64>,
    pub maxmemory_bytes: Option<u64>,
    pub maxmemory_policy: Option<Seq<char>>,
    pub mem_fragmentation_ratio: Option<(nat, nat)>,
    pub evicted_keys: Option<u64>,
    pub connected_clients: Option<u64>,
    pub blocked_clients: Option<u64>,
    pub keyspace_hits: Option<u64>,
    pub keyspace_misses: Option<u64>,
    pub hit_ratio: Option<(nat, nat)>,
    pub ops_per_sec: Option<u64>,
}

impl View for RedisStatus {
    type V = RedisStatusView;

    open spec fn view(&self) -> RedisStatusView {
        RedisStatusView {
            is_configured: self.is_configured,
            is_reachable: self.is_reachable,
            endpoint: text::text_opt(self.endpoint),
            probe: self.probe@,
            version: text::text_opt(self.version),
            used_memory_bytes: self.used_memory_bytes,
            used_memory_peak_bytes: self.used_memory_peak_bytes,
            maxmemory_bytes: self.maxmemory_bytes,
            maxmemory_policy: text::text_opt(self.maxmemory_policy),
            mem_fragmentation_ratio: ratio::ratio_opt(self.mem_fragmentation_ratio),
            evicted_keys: self.evicted_keys,
            connected_clients: self.connected_clients,
            blocked_clients: self.blocked_clients,
            keyspace_hits: self.keyspace_hits,
            keyspace_misses: self.keyspace_misses,
            hit_ratio: ratio::ratio_opt(self.hit_ratio),
            ops_per_sec: self.ops_per_sec,
        }
    }
}

impl RedisStatusView {
    /// Nothing measured.
    pub open spec fn unset() -> RedisStatusView {
        RedisStatusView {
            is_configured: false,
            is_reachable: false,
            endpoint: None,
            probe: ProbeOutcomeView::unset(),
            version: None,
            used_memory_bytes: None,
            used_memory_peak_bytes: None,
            maxmemory_bytes: None,
            maxmemory_policy: None,
            mem_fragmentation_ratio: None,
            evicted_keys: None,
            connected_clients: None,
            blocked_clients: None,
            keyspace_hits: None,
            keyspace_misses: None,
            hit_ratio: None,
            ops_per_sec: None,
        }
    }
}

impl Default for RedisStatus {
    fn default() -> (r: RedisStatus)
        ensures
            r@ == RedisStatusView::unset(),
    {
        let r = RedisStatus {
            is_configured: false,
            is_reachable: false,
            endpoint: None,
            probe: ProbeOutcome::default(),
            version: None,
            used_memory_bytes: None,
            used_memory_peak_bytes: None,
            maxmemory_bytes: None,
            maxmemory_policy: None,
            mem_fragmentation_ratio: None,
            evicted_keys: None,
            connected_clients: None,
            blocked_clients: None,
            keyspace_hits: None,
            keyspace_misses: None,
            hit_ratio: None,
            ops_per_sec: None,
        };
        r
    }
}

/// What an OpenSearch or Elasticsearch cluster reported.
#[derive(Debug, Clone)]
pub struct OpenSearchStatus {
    pub is_configured: bool,
    pub is_reachable: bool,
    pub probe: ProbeOutcome,
    pub cluster_name: Option<String>,
    pub status: Option<String>,
    pub version: Option<String>,
    pub number_of_nodes: Option<u32>,
    pub active_primary_shards: Option<u32>,
    pub active_shards: Option<u32>,
    pub unassigned_shards: Option<u32>,
    pub has_catalog_index: bool,
    pub catalog_index_names: Vec<String>,
    /// Whether the index listing could be read at all.
    pub catalog_index_probe: ProbeOutcome,
}

/// What a [`OpenSearchStatus`] holds.
#[verifier::ext_equal]
pub struct OpenSearchStatusView {
    pub is_configured: bool,
    pub is_reachable: bool,
    pub probe: ProbeOutcomeView,
    pub cluster_name: Option<Seq<char>>,
    pub status: Option<Seq<char>>,
    pub version: Option<Seq<char>>,
    pub number_of_nodes: Option<u32>,
    pub active_primary_shards: Option<u32>,
    pub active_shards: Option<u32>,
    pub unassigned_shards: Option<u32>,
    pub has_catalog_index: bool,
    pub catalog_index_names: Seq<Seq<char>>,
    pub catalog_index_probe: ProbeOutcomeView,
}

impl View for OpenSearchStatus {
    type V = OpenSearchStatusView;

    open spec fn view(&self) -> OpenSearchStatusView {
        OpenSearchStatusView {
            is_configured: self.is_configured,
            is_reachable: self.is_reachable,
            probe: self.probe@,
            cluster_name: text::text_opt(self.cluster_name),
            status: text::text_opt(self.status),
            version: text::text_opt(self.version),
            number_of_nodes: self.number_of_nodes,
            active_primary_shards: self.active_primary_shards,
            active_shards: self.active_shards,
            unassigned_shards: self.unassigned_shards,
            has_catalog_index: self.has_catalog_index,
            catalog_index_names: text::texts(self.catalog_index_names@),
            catalog_index_probe: self.catalog_index_probe@,
        }
    }
}

impl OpenSearchStatusView {
    /// Nothing measured.
    pub open spec fn unset() -> OpenSearchStatusView {
        OpenSearchStatusView {
            is_configured: false,
            is_reachable: false,
            probe: ProbeOutcomeView::unset(),
            cluster_name: None,
            status: None,
            version: None,
            number_of_nodes: None,
            active_primary_shards: None,
            active_shards: None,
            unassigned_shards: None,
            has_catalog_index: false,
            catalog_index_names: Seq::empty(),
            catalog_index_probe: ProbeOutcomeView::unset(),
        }
    }
}

impl Default for OpenSearchStatus {
    fn default() -> (r: OpenSearchStatus)
        ensures
            r@ == OpenSearchStatusView::unset(),
    {
        let r = OpenSearchStatus {
            is_configured: false,
            is_reachable: false,
            probe: ProbeOutcome::default(),
            cluster_name: None,
            status: None,
            version: None,
            number_of_nodes: None,
            active_primary_shards: None,
            active_shards: None,
            unassigned_shards: None,
            has_catalog_index: false,
            catalog_index_names: Vec::new(),
            catalog_index_probe: ProbeOutcome::default(),
        };
        assert(r@.catalog_index_names =~= Seq::empty());
        r
    }
}

/// The counters of an Nginx `stub_status` page.
#[derive(Debug, Clone)]
pub struct NginxStatus {
    pub is_detected: bool,
    pub endpoint: Option<String>,
    pub probe: ProbeOutcome,
    pub active_connections: Option<u64>,
    pub accepted: Option<u64>,
    pub handled: Option<u64>,
    pub requests: Option<u64>,
    pub reading: Option<u64>,
    pub writing: Option<u64>,
    pub waiting: Option<u64>,
    /// Connections accepted but never handled.
    pub dropped: Option<u64>,
}

/// What a [`NginxStatus`] holds.
#[verifier::ext_equal]
pub struct NginxStatusView {
    pub is_detected: bool,
    pub endpoint: Option<Seq<char>>,
    pub probe: ProbeOutcomeView,
    pub active_connections: Option<u64>,
    pub accepted: Option<u64>,
    pub handled: Option<u64>,
    pub requests: Option<u64>,
    pub reading: Option<u64>,
    pub writing: Option<u64>,
    pub waiting: Option<u64>,
    pub dropped: Option<u64>,
}

impl View for NginxStatus {
    type V = NginxStatusView;

    open spec fn view(&self) -> NginxStatusView {
        NginxStatusView {
            is_detected: self.is_detected,
            endpoint: text::text_opt(self.endpoint),
            probe: self.probe@,
            active_connections: self.active_connections,
            accepted: self.accepted,
            handled: self.handled,
            requests: self.requests,
            reading: self.reading,
            writing: self.writing,
            waiting: self.waiting,
            dropped: self.dropped,
        }
    }
}

impl NginxStatusView {
    /// Nothing measured.
    pub open spec fn unset() -> NginxStatusView {
        NginxStatusView {
            is_detected: false,
            endpoint: None,
            probe: ProbeOutcomeView::unset(),
            active_connections: None,
            accepted: None,
            handled: None,
            requests: None,
            reading: None,
            writing: None,
            waiting: None,
            dropped: None,
        }
    }
}

impl Default for NginxStatus {
    fn default() -> (r: NginxStatus)
        ensures
            r@ == NginxStatusView::unset(),
    {
        let r = NginxStatus {
            is_detected: false,
            endpoint: None,
            probe: ProbeOutcome::default(),
            active_connections: None,
            accepted: None,
            handled: None,
            requests: None,
            reading: None,
            writing: None,
            waiting: None,
            dropped: None,
        };
        r
    }
}

/// What an HTTP probe of a proxy tier found.
#[derive(Debug, Clone)]
pub struct VarnishProbeResult {
    pub endpoint: Option<String>,
    pub outcome: ProbeOutcome,
    pub http_status: Option<u16>,
    pub via_header: Option<String>,
    pub x_varnish_header: Option<String>,
    pub age_header: Option<String>,
    pub x_magento_cache_debug: Option<String>,
    pub server_header: Option<String>,
    /// True only when a response header names Varnish.
    pub identified_as_varnish: bool,
}

/// What a [`VarnishProbeResult`] holds.
#[verifier::ext_equal]
pub struct VarnishProbeResultView {
    pub endpoint: Option<Seq<char>>,
    pub outcome: ProbeOutcomeView,
    pub http_status: Option<u16>,
    pub via_header: Option<Seq<char>>,
    pub x_varnish_header: Option<Seq<char>>,
    pub age_header: Option<Seq<char>>,
    pub x_magento_cache_debug: Option<Seq<char>>,
    pub server_header: Option<Seq<char>>,
    pub identified_as_varnish: bool,
}

impl View for VarnishProbeResult {
    type V = VarnishProbeResultView;

    open spec fn view(&self) -> VarnishProbeResultView {
        VarnishProbeResultView {
            endpoint: text::text_opt(self.endpoint),
            outcome: self.outcome@,
            http_status: self.http_status,
            via_header: text::text_opt(self.via_header),
            x_varnish_header: text::text_opt(self.x_varnish_header),
            age_header: text::text_opt(self.age_header),
            x_magento_cache_debug: text::text_opt(self.x_magento_cache_debug),
            server_header: text::text_opt(self.server_header),
            identified_as_varnish: self.identified_as_varnish,
        }
    }
}

impl VarnishProbeResultView {
    /// Nothing measured.
    pub open spec fn unset() -> VarnishProbeResultView {
        VarnishProbeResultView {
            endpoint: None,
            outcome: ProbeOutcomeView::unset(),
            http_status: None,
            via_header: None,
            x_varnish_header: None,
            age_header: None,
            x_magento_cache_debug: None,
            server_header: None,
            identified_as_varnish: false,
        }
    }
}

impl Default for VarnishProbeResult {
    fn default() -> (r: VarnishProbeResult)
        ensures
            r@ == VarnishProbeResultView::unset(),
    {
        let r = VarnishProbeResult {
            endpoint: None,
            outcome: ProbeOutcome::default(),
            http_status: None,
            via_header: None,
            x_varnish_header: None,
            age_header: None,
            x_magento_cache_debug: None,
            server_header: None,
            identified_as_varnish: false,
        };
        r
    }
}

/// The engine behind the Full Page Cache.
#[derive(Debug, Clone, Copy, PartialEq, Eq, Structural)]
pub enum FpcEngine {
    Unknown,
    BuiltIn,
    Varnish,
}

impl FpcEngine {
    pub open spec fn unset() -> FpcEngine {
        FpcEngine::Unknown
    }
}

impl Default for FpcEngine {
    fn default() -> (r: FpcEngine)
        ensures
            r == FpcEngine::unset(),
    {
        FpcEngine::Unknown
    }
}

impl FpcEngine {
    pub open spec fn described(self) -> Seq<char> {
        match self {
            FpcEngine::Unknown => "Unknown"@,
            FpcEngine::BuiltIn => "Built-in"@,
            FpcEngine::Varnish => "Varnish"@,
        }
    }

    /// The engine in words.
    pub fn describe(self) -> (r: String)
        ensures
            r@ == self.described(),
    {
        match self {
            FpcEngine::Unknown => "Unknown".to_owned(),
            FpcEngine::BuiltIn => "Built-in".to_owned(),
            FpcEngine::Varnish => "Varnish".to_owned(),
        }
    }
}

/// A layout block declared with `cacheable="false"`.
#[derive(Debug, Clone)]
pub struct UncacheableBlock {
    pub module: String,
    pub layout_handle: String,
    pub block_name: String,
    pub class_name: Option<String>,
    pub template: Option<String>,
    pub source_file: String,
    pub line: u64,
}

/// What a [`UncacheableBlock`] holds.
#[verifier::ext_equal]
pub struct UncacheableBlockView {
    pub module: Seq<char>,
    pub layout_handle: Seq<char>,
    pub block_name: Seq<char>,
    pub class_name: Option<Seq<char>>,
    pub template: Option<Seq<char>>,
    pub source_file: Seq<char>,
    pub line: u64,
}

impl View for UncacheableBlock {
    type V = UncacheableBlockView;

    open spec fn view(&self) -> UncacheableBlockView {
        UncacheableBlockView {
            module: self.module@,
            layout_handle: self.layout_handle@,
            block_name: self.block_name@,
            class_name: text::text_opt(self.class_name),
            template: text::text_opt(self.template),
            source_file: self.source_file@,
            line: self.line,
        }
    }
}

/// What a list of blocks holds.
pub open spec fn block_views(blocks: Seq<UncacheableBlock>) -> Seq<UncacheableBlockView> {
    Seq::new(blocks.len(), |i: int| blocks[i]@)
}

/// The Full Page Cache of a store.
#[derive(Debug, Clone)]
pub struct FpcProbeStatus {
    pub engine: FpcEngine,
    /// `env.php` names cache hosts.
    pub is_varnish_configured: bool,
    /// A probe identified Varnish.
    pub is_varnish_reachable: bool,
    pub varnish_host: Option<String>,
    pub varnish_port: Option<u16>,
    pub varnish_probe: VarnishProbeResult,
    pub uncacheable_blocks: Vec<UncacheableBlock>,
}

/// What a [`FpcProbeStatus`] holds.
#[verifier::ext_equal]
pub struct FpcProbeStatusView {
    pub engine: FpcEngine,
    pub is_varnish_configured: bool,
    pub is_varnish_reachable: bool,
    pub varnish_host: Option<Seq<char>>,
    pub varnish_port: Option<u16>,
    pub varnish_probe: VarnishProbeResultView,
    pub uncacheable_blocks: Seq<UncacheableBlockView>,
}

impl View for FpcProbeStatus {
    type V = FpcProbeStatusView;

    open spec fn view(&self) -> FpcProbeStatusView {
        FpcProbeStatusView {
            engine: self.engine,
            is_varnish_configured: self.is_varnish_configured,
            is_varnish_reachable: self.is_varnish_reachable,
            varnish_host: text::text_opt(self.varnish_host),
            varnish_port: self.varnish_port,
            varnish_probe: self.varnish_probe@,
            uncacheable_blocks: Seq::new(self.uncacheable_blocks@.len(), |i: int| self.uncacheable_blocks@[i]@),
        }
    }
}

impl FpcProbeStatusView {
    /// Nothing measured.
    pub open spec fn unset() -> FpcProbeStatusView {
        FpcProbeStatusView {
            engine: FpcEngine::unset(),
            is_varnish_configured: false,
            is_varnish_reachable: false,
            varnish_host: None,
            varnish_port: None,
            varnish_probe: VarnishProbeResultView::unset(),
            uncacheable_blocks: Seq::empty(),
        }
    }
}

impl Default for FpcProbeStatus {
    fn default() -> (r: FpcProbeStatus)
        ensures
            r@ == FpcProbeStatusView::unset(),
    {
        let r = FpcProbeStatus {
            engine: FpcEngine::default(),
            is_varnish_configured: false,
            is_varnish_reachable: false,
            varnish_host: None,
            varnish_port: None,
            varnish_probe: VarnishProbeResult::default(),
            uncacheable_blocks: Vec::new(),
        };
        assert(r@.uncacheable_blocks =~= Seq::empty());
        r
    }
}

/// `MAGE_MODE`.
#[derive(Debug, Clone, Copy, PartialEq, Eq, Structural)]
pub enum MagentoMode {
    Unknown,
    DefaultMode,
    Developer,
    Production,
    Maintenance,
}

impl MagentoMode {
    pub open spec fn unset() -> MagentoMode {
        MagentoMode::Unknown
    }
}

impl Default for MagentoMode {
    fn default() -> (r: MagentoMode)
        ensures
            r == MagentoMode::unset(),
    {
        MagentoMode::Unknown
    }
}

/// Whether a secret is set; the secret itself is not kept.
#[derive(Debug, Clone, Copy, PartialEq, Eq, Structural)]
pub enum SecretValue {
    Missing,
    Present,
}

impl SecretValue {
    pub open spec fn unset() -> SecretValue {
        SecretValue::Missing
    }
}

impl Default for SecretValue {
    fn default() -> (r: SecretValue)
        ensures
            r == SecretValue::unset(),
    {
        SecretValue::Missing
    }
}

/// What `app/etc/env.php` configures, without its secrets.
#[derive(Debug, Clone)]
pub struct SanitizedEnvConfig {
    pub db_host: Option<String>,
    pub db_name: Option<String>,
    pub db_user: Option<String>,
    pub db_password_secret: SecretValue,
    pub crypt_key_secret: SecretValue,
    pub redis_session_host: Option<String>,
    pub redis_session_db: Option<String>,
    pub redis_cache_host: Option<String>,
    pub redis_cache_db: Option<String>,
    pub redis_page_cache_host: Option<String>,
    pub redis_page_cache_db: Option<String>,
    pub http_cache_hosts: Vec<String>,
    pub opensearch_host: Option<String>,
    pub opensearch_port: Option<u16>,
}

/// What a [`SanitizedEnvConfig`] holds.
#[verifier::ext_equal]
pub struct SanitizedEnvConfigView {
    pub db_host: Option<Seq<char>>,
    pub db_name: Option<Seq<char>>,
    pub db_user: Option<Seq<char>>,
    pub db_password_secret: SecretValue,
    pub crypt_key_secret: SecretValue,
    pub redis_session_host: Option<Seq<char>>,
    pub redis_session_db: Option<Seq<char>>,
    pub redis_cache_host: Option<Seq<char>>,
    pub redis_cache_db: Option<Seq<char>>,
    pub redis_page_cache_host: Option<Seq<char>>,
    pub redis_page_cache_db: Option<Seq<char>>,
    pub http_cache_hosts: Seq<Seq<char>>,
    pub opensearch_host: Option<Seq<char>>,
    pub opensearch_port: Option<u16>,
}

impl View for SanitizedEnvConfig {
    type V = SanitizedEnvConfigView;

    open spec fn view(&self) -> SanitizedEnvConfigView {
        SanitizedEnvConfigView {
            db_host: text::text_opt(self.db_host),
            db_name: text::text_opt(self.db_name),
            db_user: text::text_opt(self.db_user),
            db_password_secret: self.db_password_secret,
            crypt_key_secret: self.crypt_key_secret,
            redis_session_host: text::text_opt(self.redis_session_host),
            redis_session_db: text::text_opt(self.redis_session_db),
            redis_cache_host: text::text_opt(self.redis_cache_host),
            redis_cache_db: text::text_opt(self.redis_cache_db),
            redis_page_cache_host: text::text_opt(self.redis_page_cache_host),
            redis_page_cache_db: text::text_opt(self.redis_page_cache_db),
            http_cache_hosts: text::texts(self.http_cache_hosts@),
            opensearch_host: text::text_opt(self.opensearch_host),
            opensearch_port: self.opensearch_port,
        }
    }
}

impl SanitizedEnvConfigView {
    /// Nothing measured.
    pub open spec fn unset() -> SanitizedEnvConfigView {
        SanitizedEnvConfigView {
            db_host: None,
            db_name: None,
            db_user: None,
            db_password_secret: SecretValue::unset(),
            crypt_key_secret: SecretValue::unset(),
            redis_session_host: None,
            redis_session_db: None,
            redis_cache_host: None,
            redis_cache_db: None,
            redis_page_cache_host: None,
            redis_page_cache_db: None,
            http_cache_hosts: Seq::empty(),
            opensearch_host: None,
            opensearch_port: None,
        }
    }
}

impl Default for SanitizedEnvConfig {
    fn default() -> (r: SanitizedEnvConfig)
        ensures
            r@ == SanitizedEnvConfigView::unset(),
    {
        let r = SanitizedEnvConfig {
            db_host: None,
            db_name: None,
            db_user: None,
            db_password_secret: SecretValue::default(),
            crypt_key_secret: SecretValue::default(),
            redis_session_host: None,
            redis_session_db: None,
            redis_cache_host: None,
            redis_cache_db: None,
            redis_page_cache_host: None,
            redis_page_cache_db: None,
            http_cache_hosts: Vec::new(),
            opensearch_host: None,
            opensearch_port: None,
        };
        assert(r@.http_cache_hosts =~= Seq::empty());
        r
    }
}

/// A statement digest of `performance_schema`.
#[derive(Debug, Clone)]
pub struct QueryDigest {
    pub digest_id: String,
    /// The statement with `?` in place of its literals.
    pub fingerprint: String,
    pub execution_count: u64,
    pub total_time_ps: u64,
    pub avg_time_ps: u64,
    pub max_time_ps: u64,
    pub avg_rows_examined: u64,
    pub avg_rows_sent: u64,
    pub tables_involved: Vec<String>,
    pub first_seen: Option<String>,
    pub last_seen: Option<String>,
}

/// What a [`QueryDigest`] holds.
#[verifier::ext_equal]
pub struct QueryDigestView {
    pub digest_id: Seq<char>,
    pub fingerprint: Seq<char>,
    pub execution_count: u64,
    pub total_time_ps: u64,
    pub avg_time_ps: u64,
    pub max_time_ps: u64,
    pub avg_rows_examined: u64,
    pub avg_rows_sent: u64,
    pub tables_involved: Seq<Seq<char>>,
    pub first_seen: Option<Seq<char>>,
    pub last_seen: Option<Seq<char>>,
}

impl View for QueryDigest {
    type V = QueryDigestView;

    open spec fn view(&self) -> QueryDigestView {
        QueryDigestView {
            digest_id: self.digest_id@,
            fingerprint: self.fingerprint@,
            execution_count: self.execution_count,
            total_time_ps: self.total_time_ps,
            avg_time_ps: self.avg_time_ps,
            max_time_ps: self.max_time_ps,
            avg_rows_examined: self.avg_rows_examined,
            avg_rows_sent: self.avg_rows_sent,
            tables_involved: text::texts(self.tables_involved@),
            first_seen: text::text_opt(self.first_seen),
            last_seen: text::text_opt(self.last_seen),
        }
    }
}

impl QueryDigestView {
    /// Nothing measured.
    pub open spec fn unset() -> QueryDigestView {
        QueryDigestView {
            digest_id: Seq::empty(),
            fingerprint: Seq::empty(),
            execution_count: 0,
            total_time_ps: 0,
            avg_time_ps: 0,
            max_time_ps: 0,
            avg_rows_examined: 0,
            avg_rows_sent: 0,
            tables_involved: Seq::empty(),
            first_seen: None,
            last_seen: None,
        }
    }
}

impl Default for QueryDigest {
    fn default() -> (r: QueryDigest)
        ensures
            r@ == QueryDigestView::unset(),
    {
        let r = QueryDigest {
            digest_id: String::new(),
            fingerprint: String::new(),
            execution_count: 0,
            total_time_ps: 0,
            avg_time_ps: 0,
            max_time_ps: 0,
            avg_rows_examined: 0,
            avg_rows_sent: 0,
            tables_involved: Vec::new(),
            first_seen: None,
            last_seen: None,
        };
        assert(r@.tables_involved =~= Seq::empty());
        r
    }
}

/// A statement that has been waiting or running for a while.
#[derive(Debug, Clone)]
pub struct ActiveLockWait {
    pub waiting_query_id: u64,
    pub waiting_query: String,
    pub blocking_query_id: Option<u64>,
    pub blocking_query: Option<String>,
    pub wait_time_secs: u64,
    pub table_name: Option<String>,
    /// `performance_schema` named the blocker.
    pub is_confirmed_lock_wait: bool,
    pub command: Option<String>,
    pub user: Option<String>,
}

/// What a [`ActiveLockWait`] holds.
#[verifier::ext_equal]
pub struct ActiveLockWaitView {
    pub waiting_query_id: u64,
    pub waiting_query: Seq<char>,
    pub blocking_query_id: Option<u64>,
    pub blocking_query: Option<Seq<char>>,
    pub wait_time_secs: u64,
    pub table_name: Option<Seq<char>>,
    pub is_confirmed_lock_wait: bool,
    pub command: Option<Seq<char>>,
    pub user: Option<Seq<char>>,
}

impl View for ActiveLockWait {
    type V = ActiveLockWaitView;

    open spec fn view(&self) -> ActiveLockWaitView {
        ActiveLockWaitView {
            waiting_query_id: self.waiting_query_id,
            waiting_query: self.waiting_query@,
            blocking_query_id: self.blocking_query_id,
            blocking_query: text::text_opt(self.blocking_query),
            wait_time_secs: self.wait_time_secs,
            table_name: text::text_opt(self.table_name),
            is_confirmed_lock_wait: self.is_confirmed_lock_wait,
            command: text::text_opt(self.command),
            user: text::text_opt(self.user),
        }
    }
}

impl ActiveLockWaitView {
    /// Nothing measured.
    pub open spec fn unset() -> ActiveLockWaitView {
        ActiveLockWaitView {
            waiting_query_id: 0,
            waiting_query: Seq::empty(),
            blocking_query_id: None,
            blocking_query: None,
            wait_time_secs: 0,
            table_name: None,
            is_confirmed_lock_wait: false,
            command: None,
            user: None,
        }
    }
}

impl Default for ActiveLockWait {
    fn default() -> (r: ActiveLockWait)
        ensures
            r@ == ActiveLockWaitView::unset(),
    {
        let r = ActiveLockWait {
            waiting_query_id: 0,
            waiting_query: String::new(),
            blocking_query_id: None,
            blocking_query: None,
            wait_time_secs: 0,
            table_name: None,
            is_confirmed_lock_wait: false,
            command: None,
            user: None,
        };
        r
    }
}

/// Storage taken by one table.
#[derive(Debug, Clone)]
pub struct TableSizeStat {
    pub table_name: String,
    pub row_count: u64,
    pub data_bytes: u64,
    pub index_bytes: u64,
    pub total_bytes: u64,
}

/// What a [`TableSizeStat`] holds.
#[verifier::ext_equal]
pub struct TableSizeStatView {
    pub table_name: Seq<char>,
    pub row_count: u64,
    pub data_bytes: u64,
    pub index_bytes: u64,
    pub total_bytes: u64,
}

impl View for TableSizeStat {
    type V = TableSizeStatView;

    open spec fn view(&self) -> TableSizeStatView {
        TableSizeStatView {
            table_name: self.table_name@,
            row_count: self.row_count,
            data_bytes: self.data_bytes,
            index_bytes: self.index_bytes,
            total_bytes: self.total_bytes,
        }
    }
}

/// The state of `cron_schedule`.
#[derive(Debug, Clone)]
pub struct CronScheduleSummary {
    pub total_rows: u64,
    pub pending_rows: u64,
    pub running_rows: u64,
    pub success_rows: u64,
    pub missed_rows: u64,
    pub error_rows: u64,
    pub oldest_running_job: Option<String>,
    pub oldest_running_seconds: Option<u64>,
}

/// What a [`CronScheduleSummary`] holds.
#[verifier::ext_equal]
pub struct CronScheduleSummaryView {
    pub total_rows: u64,
    pub pending_rows: u64,
    pub running_rows: u64,
    pub success_rows: u64,
    pub missed_rows: u64,
    pub error_rows: u64,
    pub oldest_running_job: Option<Seq<char>>,
    pub oldest_running_seconds: Option<u64>,
}

impl View for CronScheduleSummary {
    type V = CronScheduleSummaryView;

    open spec fn view(&self) -> CronScheduleSummaryView {
        CronScheduleSummaryView {
            total_rows: self.total_rows,
            pending_rows: self.pending_rows,
            running_rows: self.running_rows,
            success_rows: self.success_rows,
            missed_rows: self.missed_rows,
            error_rows: self.error_rows,
            oldest_running_job: text::text_opt(self.oldest_running_job),
            oldest_running_seconds: self.oldest_running_seconds,
        }
    }
}

impl CronScheduleSummaryView {
    /// Nothing measured.
    pub open spec fn unset() -> CronScheduleSummaryView {
        CronScheduleSummaryView {
            total_rows: 0,
            pending_rows: 0,
            running_rows: 0,
            success_rows: 0,
            missed_rows: 0,
            error_rows: 0,
            oldest_running_job: None,
            oldest_running_seconds: None,
        }
    }
}

impl Default for CronScheduleSummary {
    fn default() -> (r: CronScheduleSummary)
        ensures
            r@ == CronScheduleSummaryView::unset(),
    {
        let r = CronScheduleSummary {
            total_rows: 0,
            pending_rows: 0,
            running_rows: 0,
            success_rows: 0,
            missed_rows: 0,
            error_rows: 0,
            oldest_running_job: None,
            oldest_running_seconds: None,
        };
        r
    }
}

/// What a live MySQL server reported.
#[derive(Debug, Clone)]
pub struct DatabaseMetrics {
    pub is_connected: bool,
    pub server_version: Option<String>,
    pub innodb_buffer_pool_bytes: Option<u64>,
    pub total_data_and_index_bytes: Option<u64>,
    pub table_sizes: Vec<TableSizeStat>,
    pub cron_schedule: CronScheduleSummary,
    pub active_connections: Option<u64>,
    pub query_digests: Vec<QueryDigest>,
    pub digest_collection: ProbeOutcome,
    pub active_lock_waits: Vec<ActiveLockWait>,
    pub lock_collection: ProbeOutcome,
}

/// What a [`DatabaseMetrics`] holds.
#[verifier::ext_equal]
pub struct DatabaseMetricsView {
    pub is_connected: bool,
    pub server_version: Option<Seq<char>>,
    pub innodb_buffer_pool_bytes: Option<u64>,
    pub total_data_and_index_bytes: Option<u64>,
    pub table_sizes: Seq<TableSizeStatView>,
    pub cron_schedule: CronScheduleSummaryView,
    pub active_connections: Option<u64>,
    pub query_digests: Seq<QueryDigestView>,
    pub digest_collection: ProbeOutcomeView,
    pub active_lock_waits: Seq<ActiveLockWaitView>,
    pub lock_collection: ProbeOutcomeView,
}

impl View for DatabaseMetrics {
    type V = DatabaseMetricsView;

    open spec fn view(&self) -> DatabaseMetricsView {
        DatabaseMetricsView {
            is_connected: self.is_connected,
            server_version: text::text_opt(self.server_version),
            innodb_buffer_pool_bytes: self.innodb_buffer_pool_bytes,
            total_data_and_index_bytes: self.total_data_and_index_bytes,
            table_sizes: Seq::new(self.table_sizes@.len(), |i: int| self.table_sizes@[i]@),
            cron_schedule: self.cron_schedule@,
            active_connections: self.active_connections,
            query_digests: Seq::new(self.query_digests@.len(), |i: int| self.query_digests@[i]@),
            digest_collection: self.digest_collection@,
            active_lock_waits: Seq::new(self.active_lock_waits@.len(), |i: int| self.active_lock_waits@[i]@),
            lock_collection: self.lock_collection@,
        }
    }
}

impl DatabaseMetricsView {
    /// Nothing measured.
    pub open spec fn unset() -> DatabaseMetricsView {
        DatabaseMetricsView {
            is_connected: false,
            server_version: None,
            innodb_buffer_pool_bytes: None,
            total_data_and_index_bytes: None,
            table_sizes: Seq::empty(),
            cron_schedule: CronScheduleSummaryView::unset(),
            active_connections: None,
            query_digests: Seq::empty(),
            digest_collection: ProbeOutcomeView::unset(),
            active_lock_waits: Seq::empty(),
            lock_collection: ProbeOutcomeView::unset(),
        }
    }
}

impl Default for DatabaseMetrics {
    fn default() -> (r: DatabaseMetrics)
        ensures
            r@ == DatabaseMetricsView::unset(),
    {
        let r = DatabaseMetrics {
            is_connected: false,
            server_version: None,
            innodb_buffer_pool_bytes: None,
            total_data_and_index_bytes: None,
            table_sizes: Vec::new(),
            cron_schedule: CronScheduleSummary::default(),
            active_connections: None,
            query_digests: Vec::new(),
            digest_collection: ProbeOutcome::default(),
            active_lock_waits: Vec::new(),
            lock_collection: ProbeOutcome::default(),
        };
        assert(r@.table_sizes =~= Seq::empty());
        assert(r@.query_digests =~= Seq::empty());
        assert(r@.active_lock_waits =~= Seq::empty());
        r
    }
}

/// A table of the declarative schema.
#[derive(Debug, Clone)]
pub struct TableSchema {
    pub name: String,
    pub owning_module: Option<String>,
}

/// Whether no two declared tables have the same name.
pub open spec fn names_are_distinct(tables: Seq<TableSchema>) -> bool {
    forall|i: int, j: int|
        0 <= i < j < tables.len() ==> (#[trigger] tables[i]).name@ != (#[trigger] tables[j]).name@
}

/// How a plugin wraps its target.
#[derive(Debug, Clone, Copy, PartialEq, Eq, Structural)]
pub enum PluginType {
    Before,
    Around,
    After,
}

/// An interceptor declared in `di.xml`.
#[derive(Debug, Clone)]
pub struct Plugin {
    pub name: String,
    pub module: String,
    pub plugin_class: String,
    pub target_class: String,
    pub plugin_type: PluginType,
    pub sort_order: i64,
    pub is_disabled: bool,
    pub area: String,
    pub source_file: String,
    pub line: u64,
    pub cost_indicators: Vec<String>,
}

/// An installed module.
#[derive(Debug, Clone)]
pub struct Module {
    pub name: String,
}

/// An operation that static analysis looks for.
#[derive(Debug, Clone, Copy, PartialEq, Eq, Structural)]
pub enum OperationType {
    RepositoryLoad,
    CollectionLoad,
    HttpRequest,
    Other,
}

/// A costly call that static analysis found in PHP code.
#[derive(Debug, Clone)]
pub struct AstFinding {
    pub operation: OperationType,
    pub in_loop: bool,
    pub file_path: Option<String>,
    pub line_number: u64,
    pub class_name: Option<String>,
    pub call_signature: String,
}

/// Live measurements of the services around a store.
#[derive(Debug, Clone)]
pub struct RuntimeMetrics {
    pub php_workers: PhpWorkerMetrics,
    pub nginx: NginxStatus,
    pub redis_default: RedisStatus,
    pub redis_session: RedisStatus,
    pub opensearch: OpenSearchStatus,
    pub fpc: FpcProbeStatus,
}

/// Everything known about one store.
#[derive(Debug, Clone)]
pub struct MagentoInstallation {
    pub root: String,
    pub env_config: SanitizedEnvConfig,
    pub modules: Vec<Module>,
    pub plugins: Vec<Plugin>,
    pub declared_tables: Vec<TableSchema>,
    pub database_metrics: DatabaseMetrics,
    pub runtime: RuntimeMetrics,
}

impl MagentoInstallation {
    /// Nothing is known but the root.
    pub open spec fn is_clean(self) -> bool {
        &&& self.env_config@ == SanitizedEnvConfigView::unset()
        &&& self.modules@.len() == 0
        &&& self.plugins@.len() == 0
        &&& self.declared_tables@.len() == 0
        &&& self.database_metrics@ == DatabaseMetricsView::unset()
        &&& self.runtime.php_workers@ == PhpWorkerMetricsView::unset()
        &&& self.runtime.nginx@ == NginxStatusView::unset()
        &&& self.runtime.redis_default@ == RedisStatusView::unset()
        &&& self.runtime.redis_session@ == RedisStatusView::unset()
        &&& self.runtime.opensearch@ == OpenSearchStatusView::unset()
        &&& self.runtime.fpc@ == FpcProbeStatusView::unset()
    }

    /// Every table is declared once.
    pub open spec fn is_valid(self) -> bool {
        names_are_distinct(self.declared_tables@)
    }

    /// A store of which only the root is known.
    pub fn new(root: String) -> (r: MagentoInstallation)
        ensures
            r.root == root,
            r.is_clean(),
            r.is_valid(),
    {
        MagentoInstallation {
            root,
            env_config: SanitizedEnvConfig::default(),
            modules: Vec::new(),
            plugins: Vec::new(),
            declared_tables: Vec::new(),
            database_metrics: DatabaseMetrics::default(),
            runtime: RuntimeMetrics {
                php_workers: PhpWorkerMetrics::default(),
                nginx: NginxStatus::default(),
                redis_default: RedisStatus::default(),
                redis_session: RedisStatus::default(),
                opensearch: OpenSearchStatus::default(),
                fpc: FpcProbeStatus::default(),
            },
        }
    }
}

/// Outcomes, sources and engines in words.
pub proof fn law_words(reason: Seq<char>)
    ensures
        ProbeOutcomeView::NotAttempted.described() == "not attempted"@,
        ProbeOutcomeView::Succeeded.described() == "succeeded"@,
        (ProbeOutcomeView::Failed { reason }).described() == "failed: "@ + reason,
        WorkerMetricSource::NotDetected.described() == "not detected"@,
        WorkerMetricSource::ConfigOnly.described() == "pool config only"@,
        WorkerMetricSource::ProcScan.described() == "/proc scan (approximate)"@,
        WorkerMetricSource::FpmStatus.described() == "PHP-FPM status page"@,
        FpcEngine::Unknown.described() == "Unknown"@,
        FpcEngine::BuiltIn.described() == "Built-in"@,
        FpcEngine::Varnish.described() == "Varnish"@,
{
}

} // verus!
