//! Engine configuration, loaded from TOML text merged over defaults.
//!
//! `load` parses an overwriting TOML document, checks every key and value
//! against the configuration schema, and applies it over the documented
//! defaults. A text that is not TOML fails with `InvalidFormat`; an unknown
//! key, or a value of the wrong type or range, fails with `InvalidConfig`.

use vstd::prelude::*;

use crate::error::SpringError;
use crate::text::str_eq;
use crate::toml_read::RawDocument;
use crate::toml_read::RawEntry;
use crate::toml_read::RawEntryModel;
use crate::toml_read::RawSectionModel;
use crate::toml_read::RawValue;
use crate::toml_read::RawValueModel;
use crate::toml_read::read_toml_document;
use crate::toml_read::toml_doc_of;
use crate::toml_read::toml_parses;

verus! {

/// Worker pool sizes.
#[derive(Clone, Copy, PartialEq, Eq, Structural, Debug)]
pub struct SpringWorkerConfig {
    /// Generic pool size; more than 1 sacrifices order for throughput.
    pub n_generic_worker_threads: u16,
    /// Source pool size; more than 1 may duplicate or reorder rows.
    pub n_source_worker_threads: u16,
}

/// Memory budget and state-machine thresholds.
#[derive(Clone, Copy, PartialEq, Eq, Structural, Debug)]
pub struct SpringMemoryConfig {
    /// Target memory ceiling (advisory).
    pub upper_limit_bytes: u64,
    /// Up-threshold into Severe.
    pub moderate_to_severe_percent: u8,
    /// Up-threshold into Critical.
    pub severe_to_critical_percent: u8,
    /// Down-threshold Critical to Severe.
    pub critical_to_severe_percent: u8,
    /// Down-threshold Severe to Moderate.
    pub severe_to_moderate_percent: u8,
    /// State sampling period.
    pub memory_state_transition_interval_msec: u32,
    /// Observability emit period.
    pub performance_metrics_summary_report_interval_msec: u32,
}

/// Optional remote reporting (out of the core's scope).
#[derive(Debug)]
pub struct SpringWebConsoleConfig {
    pub enable_report_post: bool,
    pub report_interval_msec: u32,
    pub host: String,
    pub port: u16,
    pub timeout_msec: u32,
}

/// Per-read network bounds of source readers.
#[derive(Clone, Copy, PartialEq, Eq, Structural, Debug)]
pub struct SpringSourceReaderConfig {
    pub net_connect_timeout_msec: u32,
    pub net_read_timeout_msec: u32,
    pub can_read_timeout_msec: u32,
}

/// Per-write network bounds of sink writers.
#[derive(Clone, Copy, PartialEq, Eq, Structural, Debug)]
pub struct SpringSinkWriterConfig {
    pub net_connect_timeout_msec: u32,
    pub net_write_timeout_msec: u32,
}

/// The whole engine configuration.
#[derive(Debug)]
pub struct SpringConfig {
    pub worker: SpringWorkerConfig,
    pub memory: SpringMemoryConfig,
    pub web_console: SpringWebConsoleConfig,
    pub source_reader: SpringSourceReaderConfig,
    pub sink_writer: SpringSinkWriterConfig,
}

/// Mathematical model of a [`SpringConfig`]: every key, flattened.
pub struct ConfigModel {
    pub n_generic_worker_threads: u16,
    pub n_source_worker_threads: u16,
    pub upper_limit_bytes: u64,
    pub moderate_to_severe_percent: u8,
    pub severe_to_critical_percent: u8,
    pub critical_to_severe_percent: u8,
    pub severe_to_moderate_percent: u8,
    pub memory_state_transition_interval_msec: u32,
    pub performance_metrics_summary_report_interval_msec: u32,
    pub enable_report_post: bool,
    pub report_interval_msec: u32,
    pub host: Seq<char>,
    pub port: u16,
    pub web_timeout_msec: u32,
    pub source_net_connect_timeout_msec: u32,
    pub source_net_read_timeout_msec: u32,
    pub source_can_read_timeout_msec: u32,
    pub sink_net_connect_timeout_msec: u32,
    pub sink_net_write_timeout_msec: u32,
}

impl View for SpringConfig {
    type V = ConfigModel;

    open spec fn view(&self) -> ConfigModel {
        ConfigModel {
            n_generic_worker_threads: self.worker.n_generic_worker_threads,
            n_source_worker_threads: self.worker.n_source_worker_threads,
            upper_limit_bytes: self.memory.upper_limit_bytes,
            moderate_to_severe_percent: self.memory.moderate_to_severe_percent,
            severe_to_critical_percent: self.memory.severe_to_critical_percent,
            critical_to_severe_percent: self.memory.critical_to_severe_percent,
            severe_to_moderate_percent: self.memory.severe_to_moderate_percent,
            memory_state_transition_interval_msec: self.memory.memory_state_transition_interval_msec,
            performance_metrics_summary_report_interval_msec: self.memory.performance_metrics_summary_report_interval_msec,
            enable_report_post: self.web_console.enable_report_post,
            report_interval_msec: self.web_console.report_interval_msec,
            host: self.web_console.host@,
            port: self.web_console.port,
            web_timeout_msec: self.web_console.timeout_msec,
            source_net_connect_timeout_msec: self.source_reader.net_connect_timeout_msec,
            source_net_read_timeout_msec: self.source_reader.net_read_timeout_msec,
            source_can_read_timeout_msec: self.source_reader.can_read_timeout_msec,
            sink_net_connect_timeout_msec: self.sink_writer.net_connect_timeout_msec,
            sink_net_write_timeout_msec: self.sink_writer.net_write_timeout_msec,
        }
    }
}

impl Clone for SpringConfig {
    fn clone(&self) -> (r: Self)
        ensures
            r@ == self@,
    {
        SpringConfig {
            worker: self.worker,
            memory: self.memory,
            web_console: SpringWebConsoleConfig {
                enable_report_post: self.web_console.enable_report_post,
                report_interval_msec: self.web_console.report_interval_msec,
                host: self.web_console.host.clone(),
                port: self.web_console.port,
                timeout_msec: self.web_console.timeout_msec,
            },
            source_reader: self.source_reader,
            sink_writer: self.sink_writer,
        }
    }
}

/// The documented default of every key.
pub open spec fn spec_default_config() -> ConfigModel {
    ConfigModel {
        n_generic_worker_threads: 1,
        n_source_worker_threads: 1,
        upper_limit_bytes: 10_000_000,
        moderate_to_severe_percent: 60,
        severe_to_critical_percent: 95,
        critical_to_severe_percent: 80,
        severe_to_moderate_percent: 40,
        memory_state_transition_interval_msec: 10,
        performance_metrics_summary_report_interval_msec: 10,
        enable_report_post: false,
        report_interval_msec: 3_000,
        host: "127.0.0.1"@,
        port: 8050,
        web_timeout_msec: 3_000,
        source_net_connect_timeout_msec: 1_000,
        source_net_read_timeout_msec: 100,
        source_can_read_timeout_msec: 100,
        sink_net_connect_timeout_msec: 1_000,
        sink_net_write_timeout_msec: 100,
    }
}

/// The default configuration, overwritten key by key by `load`.
pub fn default_config() -> (r: SpringConfig)
    ensures
        r@ == spec_default_config(),
{
    SpringConfig {
        worker: SpringWorkerConfig { n_generic_worker_threads: 1, n_source_worker_threads: 1 },
        memory: SpringMemoryConfig {
            upper_limit_bytes: 10_000_000,
            moderate_to_severe_percent: 60,
            severe_to_critical_percent: 95,
            critical_to_severe_percent: 80,
            severe_to_moderate_percent: 40,
            memory_state_transition_interval_msec: 10,
            performance_metrics_summary_report_interval_msec: 10,
        },
        web_console: SpringWebConsoleConfig {
            enable_report_post: false,
            report_interval_msec: 3_000,
            host: "127.0.0.1".to_owned(),
            port: 8050,
            timeout_msec: 3_000,
        },
        source_reader: SpringSourceReaderConfig {
            net_connect_timeout_msec: 1_000,
            net_read_timeout_msec: 100,
            can_read_timeout_msec: 100,
        },
        sink_writer: SpringSinkWriterConfig {
            net_connect_timeout_msec: 1_000,
            net_write_timeout_msec: 100,
        },
    }
}

/// The five section names the schema knows.
pub open spec fn known_section(name: Seq<char>) -> bool {
    ||| name == "worker"@
    ||| name == "memory"@
    ||| name == "web_console"@
    ||| name == "source_reader"@
    ||| name == "sink_writer"@
}

/// One key applied over `c`: the new model, or nothing when the key is
/// unknown in its section or the value has the wrong type or range.
pub open spec fn spec_apply_entry(
    c: ConfigModel,
    section: Seq<char>,
    key: Seq<char>,
    v: RawValueModel,
) -> Option<ConfigModel> {
    if section == "worker"@ {
        if key == "n_generic_worker_threads"@ {
            match v {
                RawValueModel::Int { x } => if 0 <= x <= u16::MAX as int {
                    Option::Some(ConfigModel { n_generic_worker_threads: x as u16, ..c })
                } else {
                    Option::None
                },
                _ => Option::None,
            }
        } else if key == "n_source_worker_threads"@ {
            match v {
                RawValueModel::Int { x } => if 0 <= x <= u16::MAX as int {
                    Option::Some(ConfigModel { n_source_worker_threads: x as u16, ..c })
                } else {
                    Option::None
                },
                _ => Option::None,
            }
        } else {
            Option::None
        }
    } else if section == "memory"@ {
        if key == "upper_limit_bytes"@ {
            match v {
                RawValueModel::Int { x } => if 0 <= x {
                    Option::Some(ConfigModel { upper_limit_bytes: x as u64, ..c })
                } else {
                    Option::None
                },
                _ => Option::None,
            }
        } else if key == "moderate_to_severe_percent"@ {
            match v {
                RawValueModel::Int { x } => if 0 <= x <= u8::MAX as int {
                    Option::Some(ConfigModel { moderate_to_severe_percent: x as u8, ..c })
                } else {
                    Option::None
                },
                _ => Option::None,
            }
        } else if key == "severe_to_critical_percent"@ {
            match v {
                RawValueModel::Int { x } => if 0 <= x <= u8::MAX as int {
                    Option::Some(ConfigModel { severe_to_critical_percent: x as u8, ..c })
                } else {
                    Option::None
                },
                _ => Option::None,
            }
        } else if key == "critical_to_severe_percent"@ {
            match v {
                RawValueModel::Int { x } => if 0 <= x <= u8::MAX as int {
                    Option::Some(ConfigModel { critical_to_severe_percent: x as u8, ..c })
                } else {
                    Option::None
                },
                _ => Option::None,
            }
        } else if key == "severe_to_moderate_percent"@ {
            match v {
                RawValueModel::Int { x } => if 0 <= x <= u8::MAX as int {
                    Option::Some(ConfigModel { severe_to_moderate_percent: x as u8, ..c })
                } else {
                    Option::None
                },
                _ => Option::None,
            }
        } else if key == "memory_state_transition_interval_msec"@ {
            match v {
                RawValueModel::Int { x } => if 0 <= x <= u32::MAX as int {
                    Option::Some(
                        ConfigModel { memory_state_transition_interval_msec: x as u32, ..c },
                    )
                } else {
                    Option::None
                },
                _ => Option::None,
            }
        } else if key == "performance_metrics_summary_report_interval_msec"@ {
            match v {
                RawValueModel::Int { x } => if 0 <= x <= u32::MAX as int {
                    Option::Some(
                        ConfigModel {
                            performance_metrics_summary_report_interval_msec: x as u32,
                            ..c
                        },
                    )
                } else {
                    Option::None
                },
                _ => Option::None,
            }
        } else {
            Option::None
        }
    } else if section == "web_console"@ {
        if key == "enable_report_post"@ {
            match v {
                RawValueModel::Bool { b } => Option::Some(
                    ConfigModel { enable_report_post: b, ..c },
                ),
                _ => Option::None,
            }
        } else if key == "report_interval_msec"@ {
            match v {
                RawValueModel::Int { x } => if 0 <= x <= u32::MAX as int {
                    Option::Some(ConfigModel { report_interval_msec: x as u32, ..c })
                } else {
                    Option::None
                },
                _ => Option::None,
            }
        } else if key == "host"@ {
            match v {
                RawValueModel::Text { s } => Option::Some(ConfigModel { host: s, ..c }),
                _ => Option::None,
            }
        } else if key == "port"@ {
            match v {
                RawValueModel::Int { x } => if 0 <= x <= u16::MAX as int {
                    Option::Some(ConfigModel { port: x as u16, ..c })
                } else {
                    Option::None
                },
                _ => Option::None,
            }
        } else if key == "timeout_msec"@ {
            match v {
                RawValueModel::Int { x } => if 0 <= x <= u32::MAX as int {
                    Option::Some(ConfigModel { web_timeout_msec: x as u32, ..c })
                } else {
                    Option::None
                },
                _ => Option::None,
            }
        } else {
            Option::None
        }
    } else if section == "source_reader"@ {
        if key == "net_connect_timeout_msec"@ {
            match v {
                RawValueModel::Int { x } => if 0 <= x <= u32::MAX as int {
                    Option::Some(ConfigModel { source_net_connect_timeout_msec: x as u32, ..c })
                } else {
                    Option::None
                },
                _ => Option::None,
            }
        } else if key == "net_read_timeout_msec"@ {
            match v {
                RawValueModel::Int { x } => if 0 <= x <= u32::MAX as int {
                    Option::Some(ConfigModel { source_net_read_timeout_msec: x as u32, ..c })
                } else {
                    Option::None
                },
                _ => Option::None,
            }
        } else if key == "can_read_timeout_msec"@ {
            match v {
                RawValueModel::Int { x } => if 0 <= x <= u32::MAX as int {
                    Option::Some(ConfigModel { source_can_read_timeout_msec: x as u32, ..c })
                } else {
                    Option::None
                },
                _ => Option::None,
            }
        } else {
            Option::None
        }
    } else if section == "sink_writer"@ {
        if key == "net_connect_timeout_msec"@ {
            match v {
                RawValueModel::Int { x } => if 0 <= x <= u32::MAX as int {
                    Option::Some(ConfigModel { sink_net_connect_timeout_msec: x as u32, ..c })
                } else {
                    Option::None
                },
                _ => Option::None,
            }
        } else if key == "net_write_timeout_msec"@ {
            match v {
                RawValueModel::Int { x } => if 0 <= x <= u32::MAX as int {
                    Option::Some(ConfigModel { sink_net_write_timeout_msec: x as u32, ..c })
                } else {
                    Option::None
                },
                _ => Option::None,
            }
        } else {
            Option::None
        }
    } else {
        Option::None
    }
}

/// The entries of one section applied in order; nothing as soon as one is
/// rejected.
pub open spec fn spec_apply_entries(
    c: ConfigModel,
    section: Seq<char>,
    entries: Seq<RawEntryModel>,
) -> Option<ConfigModel>
    decreases entries.len(),
{
    if entries.len() == 0 {
        Option::Some(c)
    } else {
        match spec_apply_entry(c, section, entries[0].key, entries[0].value) {
            Option::Some(c2) => spec_apply_entries(c2, section, entries.drop_first()),
            Option::None => Option::None,
        }
    }
}

/// A whole document applied in order over `c`: every section must be a
/// known name carrying a table, and every entry must apply.
pub open spec fn spec_apply_document(
    c: ConfigModel,
    sections: Seq<RawSectionModel>,
) -> Option<ConfigModel>
    decreases sections.len(),
{
    if sections.len() == 0 {
        Option::Some(c)
    } else if !known_section(sections[0].name) {
        Option::None
    } else {
        match sections[0].entries {
            Option::None => Option::None,
            Option::Some(es) => match spec_apply_entries(c, sections[0].name, es) {
                Option::Some(c2) => spec_apply_document(c2, sections.drop_first()),
                Option::None => Option::None,
            },
        }
    }
}

/// Applies one key over the configuration; false when the key is unknown
/// or its value has the wrong type or range (the configuration may then be
/// partially written and must be discarded).
fn apply_entry(cfg: &mut SpringConfig, section: &str, key: &str, value: &RawValue) -> (r: bool)
    ensures
        r == (spec_apply_entry(old(cfg)@, section@, key@, value@) is Some),
        r ==> final(cfg)@ == spec_apply_entry(old(cfg)@, section@, key@, value@)->Some_0,
{
    if str_eq(section, "worker") {
        if str_eq(key, "n_generic_worker_threads") {
            match value {
                RawValue::Integer { v } => {
                    if 0 <= *v && *v <= u16::MAX as i64 {
                        cfg.worker.n_generic_worker_threads = *v as u16;
                        true
                    } else {
                        false
                    }
                },
                _ => false,
            }
        } else if str_eq(key, "n_source_worker_threads") {
            match value {
                RawValue::Integer { v } => {
                    if 0 <= *v && *v <= u16::MAX as i64 {
                        cfg.worker.n_source_worker_threads = *v as u16;
                        true
                    } else {
                        false
                    }
                },
                _ => false,
            }
        } else {
            false
        }
    } else if str_eq(section, "memory") {
        if str_eq(key, "upper_limit_bytes") {
            match value {
                RawValue::Integer { v } => {
                    if 0 <= *v {
                        cfg.memory.upper_limit_bytes = *v as u64;
                        true
                    } else {
                        false
                    }
                },
                _ => false,
            }
        } else if str_eq(key, "moderate_to_severe_percent") {
            match value {
                RawValue::Integer { v } => {
                    if 0 <= *v && *v <= u8::MAX as i64 {
                        cfg.memory.moderate_to_severe_percent = *v as u8;
                        true
                    } else {
                        false
                    }
                },
                _ => false,
            }
        } else if str_eq(key, "severe_to_critical_percent") {
            match value {
                RawValue::Integer { v } => {
                    if 0 <= *v && *v <= u8::MAX as i64 {
                        cfg.memory.severe_to_critical_percent = *v as u8;
                        true
                    } else {
                        false
                    }
                },
                _ => false,
            }
        } else if str_eq(key, "critical_to_severe_percent") {
            match value {
                RawValue::Integer { v } => {
                    if 0 <= *v && *v <= u8::MAX as i64 {
                        cfg.memory.critical_to_severe_percent = *v as u8;
                        true
                    } else {
                        false
                    }
                },
                _ => false,
            }
        } else if str_eq(key, "severe_to_moderate_percent") {
            match value {
                RawValue::Integer { v } => {
                    if 0 <= *v && *v <= u8::MAX as i64 {
                        cfg.memory.severe_to_moderate_percent = *v as u8;
                        true
                    } else {
                        false
                    }
                },
                _ => false,
            }
        } else if str_eq(key, "memory_state_transition_interval_msec") {
            match value {
                RawValue::Integer { v } => {
                    if 0 <= *v && *v <= u32::MAX as i64 {
                        cfg.memory.memory_state_transition_interval_msec = *v as u32;
                        true
                    } else {
                        false
                    }
                },
                _ => false,
            }
        } else if str_eq(key, "performance_metrics_summary_report_interval_msec") {
            match value {
                RawValue::Integer { v } => {
                    if 0 <= *v && *v <= u32::MAX as i64 {
                        cfg.memory.performance_metrics_summary_report_interval_msec = *v as u32;
                        true
                    } else {
                        false
                    }
                },
                _ => false,
            }
        } else {
            false
        }
    } else if str_eq(section, "web_console") {
        if str_eq(key, "enable_report_post") {
            match value {
                RawValue::Boolean { b } => {
                    cfg.web_console.enable_report_post = *b;
                    true
                },
                _ => false,
            }
        } else if str_eq(key, "report_interval_msec") {
            match value {
                RawValue::Integer { v } => {
                    if 0 <= *v && *v <= u32::MAX as i64 {
                        cfg.web_console.report_interval_msec = *v as u32;
                        true
                    } else {
                        false
                    }
                },
                _ => false,
            }
        } else if str_eq(key, "host") {
            match value {
                RawValue::Text { s } => {
                    cfg.web_console.host = s.clone();
                    true
                },
                _ => false,
            }
        } else if str_eq(key, "port") {
            match value {
                RawValue::Integer { v } => {
                    if 0 <= *v && *v <= u16::MAX as i64 {
                        cfg.web_console.port = *v as u16;
                        true
                    } else {
                        false
                    }
                },
                _ => false,
            }
        } else if str_eq(key, "timeout_msec") {
            match value {
                RawValue::Integer { v } => {
                    if 0 <= *v && *v <= u32::MAX as i64 {
                        cfg.web_console.timeout_msec = *v as u32;
                        true
                    } else {
                        false
                    }
                },
                _ => false,
            }
        } else {
            false
        }
    } else if str_eq(section, "source_reader") {
        if str_eq(key, "net_connect_timeout_msec") {
            match value {
                RawValue::Integer { v } => {
                    if 0 <= *v && *v <= u32::MAX as i64 {
                        cfg.source_reader.net_connect_timeout_msec = *v as u32;
                        true
                    } else {
                        false
                    }
                },
                _ => false,
            }
        } else if str_eq(key, "net_read_timeout_msec") {
            match value {
                RawValue::Integer { v } => {
                    if 0 <= *v && *v <= u32::MAX as i64 {
                        cfg.source_reader.net_read_timeout_msec = *v as u32;
                        true
                    } else {
                        false
                    }
                },
                _ => false,
            }
        } else if str_eq(key, "can_read_timeout_msec") {
            match value {
                RawValue::Integer { v } => {
                    if 0 <= *v && *v <= u32::MAX as i64 {
                        cfg.source_reader.can_read_timeout_msec = *v as u32;
                        true
                    } else {
                        false
                    }
                },
                _ => false,
            }
        } else {
            false
        }
    } else if str_eq(section, "sink_writer") {
        if str_eq(key, "net_connect_timeout_msec") {
            match value {
                RawValue::Integer { v } => {
                    if 0 <= *v && *v <= u32::MAX as i64 {
                        cfg.sink_writer.net_connect_timeout_msec = *v as u32;
                        true
                    } else {
                        false
                    }
                },
                _ => false,
            }
        } else if str_eq(key, "net_write_timeout_msec") {
            match value {
                RawValue::Integer { v } => {
                    if 0 <= *v && *v <= u32::MAX as i64 {
                        cfg.sink_writer.net_write_timeout_msec = *v as u32;
                        true
                    } else {
                        false
                    }
                },
                _ => false,
            }
        } else {
            false
        }
    } else {
        false
    }
}

/// Applies a whole parsed document over the defaults.
///
/// # Failures
///
/// - `SpringError::InvalidConfig` when a section is unknown or not a
///   table, or a key is unknown, or a value has the wrong type or range.
pub fn apply_document(doc: &RawDocument) -> (r: Result<SpringConfig, SpringError>)
    ensures
        match r {
            Ok(c) => spec_apply_document(spec_default_config(), doc@) == Option::Some(c@),
            Err(e) => spec_apply_document(spec_default_config(), doc@) is None && e
                matches SpringError::InvalidConfig { .. },
        },
{
    let mut cfg = default_config();
    let ghost all = doc@;
    proof {
        assert(all.skip(0) =~= all);
    }
    let mut si: usize = 0;
    while si < doc.sections.len()
        invariant
            si <= doc.sections@.len(),
            all == doc@,
            spec_apply_document(spec_default_config(), all) == spec_apply_document(
                cfg@,
                all.skip(si as int),
            ),
        decreases doc.sections.len() - si,
    {
        let section = &doc.sections[si];
        proof {
            assert(all.skip(si as int)[0] == section@);
            assert(all.skip(si as int).drop_first() =~= all.skip(si + 1));
        }
        if !(str_eq(section.name.as_str(), "worker") || str_eq(section.name.as_str(), "memory")
            || str_eq(section.name.as_str(), "web_console") || str_eq(
            section.name.as_str(),
            "source_reader",
        ) || str_eq(section.name.as_str(), "sink_writer")) {
            proof {
                assert(!known_section(section@.name));
                assert(spec_apply_document(cfg@, all.skip(si as int)) is None);
            }
            return Err(
                SpringError::InvalidConfig { msg: "unknown configuration section".to_owned() },
            );
        }
        let entries = match &section.entries {
            Option::Some(es) => es,
            Option::None => {
                proof {
                    assert(section@.entries is None);
                    assert(spec_apply_document(cfg@, all.skip(si as int)) is None);
                }
                return Err(
                    SpringError::InvalidConfig {
                        msg: "configuration section is not a table".to_owned(),
                    },
                );
            },
        };
        let ghost section_entries = entries@.map_values(|e: RawEntry| e@);
        let ghost entry_base = cfg@;
        proof {
            assert(section_entries.skip(0) =~= section_entries);
        }
        let mut ei: usize = 0;
        while ei < entries.len()
            invariant
                ei <= entries@.len(),
                section_entries == entries@.map_values(|e: RawEntry| e@),
                section@.entries == Option::Some(section_entries),
                known_section(section@.name),
                all == doc@,
                si < all.len(),
                all.skip(si as int)[0] == section@,
                spec_apply_document(spec_default_config(), all) == spec_apply_document(
                    entry_base,
                    all.skip(si as int),
                ),
                spec_apply_entries(entry_base, section@.name, section_entries)
                    == spec_apply_entries(cfg@, section@.name, section_entries.skip(ei as int)),
            decreases entries.len() - ei,
        {
            let entry = &entries[ei];
            proof {
                assert(section_entries.skip(ei as int)[0] == entry@);
                assert(section_entries.skip(ei as int).drop_first() =~= section_entries.skip(
                    ei + 1,
                ));
            }
            let ghost cfg_before = cfg@;
            let ok = apply_entry(&mut cfg, section.name.as_str(), entry.key.as_str(), &entry.value);
            if !ok {
                proof {
                    assert(spec_apply_entry(cfg_before, section@.name, entry@.key, entry@.value)
                        is None);
                    assert(spec_apply_entries(cfg_before, section@.name, section_entries.skip(
                        ei as int,
                    )) is None);
                    assert(spec_apply_entries(entry_base, section@.name, section_entries) is None);
                    assert(spec_apply_document(entry_base, all.skip(si as int)) is None);
                }
                return Err(
                    SpringError::InvalidConfig {
                        msg: "unknown configuration key, or a value of the wrong type".to_owned(),
                    },
                );
            }
            proof {
                assert(spec_apply_entries(cfg_before, section@.name, section_entries.skip(ei as int))
                    == spec_apply_entries(cfg@, section@.name, section_entries.skip(ei + 1)));
            }
            ei += 1;
        }
        proof {
            assert(section_entries.skip(section_entries.len() as int)
                =~= Seq::<RawEntryModel>::empty());
            assert(spec_apply_entries(entry_base, section@.name, section_entries)
                == Option::Some(cfg@));
            assert(spec_apply_document(entry_base, all.skip(si as int)) == spec_apply_document(
                cfg@,
                all.skip(si + 1),
            ));
        }
        si += 1;
    }
    proof {
        assert(all.skip(all.len() as int) =~= Seq::<RawSectionModel>::empty());
    }
    Ok(cfg)
}

/// Reads [`SpringConfig`] values out of TOML text laid over the defaults.
pub struct SpringConfigDeserialize {
    pub worker: SpringWorkerConfig,
    pub memory: SpringMemoryConfig,
    pub web_console: SpringWebConsoleConfig,
    pub source_reader: SpringSourceReaderConfig,
    pub sink_writer: SpringSinkWriterConfig,
}

impl SpringConfigDeserialize {
    /// Lays the TOML text's keys over the defaults: the result is exactly
    /// the defaults overwritten by the document the text holds
    /// (`toml_doc_of`), applied key by key.
    ///
    /// # Failures
    ///
    /// - `SpringError::InvalidConfig` when `overwrite_config_toml` holds
    ///   an invalid key and/or value.
    /// - `SpringError::InvalidFormat` when `overwrite_config_toml` is not
    ///   valid as TOML.
    pub fn load(overwrite_config_toml: &str) -> (r: Result<SpringConfig, SpringError>)
        ensures
            overwrite_config_toml@.len() == 0 ==> (r matches Ok(c) && c@
                == spec_default_config()),
            !toml_parses(overwrite_config_toml@) ==> (r matches Err(e) && e
                matches SpringError::InvalidFormat { s } && s@ == overwrite_config_toml@),
            toml_parses(overwrite_config_toml@) ==> match r {
                Ok(c) => spec_apply_document(
                    spec_default_config(),
                    toml_doc_of(overwrite_config_toml@),
                ) == Option::Some(c@),
                Err(e) => spec_apply_document(
                    spec_default_config(),
                    toml_doc_of(overwrite_config_toml@),
                ) is None && e matches SpringError::InvalidConfig { .. },
            },
    {
        let doc = match read_toml_document(overwrite_config_toml) {
            Option::Some(d) => d,
            Option::None => {
                return Err(SpringError::InvalidFormat { s: overwrite_config_toml.to_owned() });
            },
        };
        apply_document(&doc)
    }

    /// Configuration by TOML format string: `overwrite_config_toml`
    /// overwrites the defaults key by key, exactly as `load` does.
    ///
    /// # Failures
    ///
    /// - `SpringError::InvalidConfig` when `overwrite_config_toml` holds
    ///   an invalid key and/or value.
    /// - `SpringError::InvalidFormat` when `overwrite_config_toml` is not
    ///   valid as TOML.
    pub fn from_toml(overwrite_config_toml: &str) -> (r: Result<SpringConfig, SpringError>)
        ensures
            overwrite_config_toml@.len() == 0 ==> (r matches Ok(c) && c@
                == spec_default_config()),
            !toml_parses(overwrite_config_toml@) ==> (r matches Err(e) && e
                matches SpringError::InvalidFormat { s } && s@ == overwrite_config_toml@),
            toml_parses(overwrite_config_toml@) ==> match r {
                Ok(c) => spec_apply_document(
                    spec_default_config(),
                    toml_doc_of(overwrite_config_toml@),
                ) == Option::Some(c@),
                Err(e) => spec_apply_document(
                    spec_default_config(),
                    toml_doc_of(overwrite_config_toml@),
                ) is None && e matches SpringError::InvalidConfig { .. },
            },
    {
        Self::load(overwrite_config_toml)
    }
}

/// Deserialize a configuration from TOML text laid over the defaults.
///
/// # Failures
///
/// - `SpringError::InvalidConfig` when `toml` holds an invalid key
///   and/or value.
/// - `SpringError::InvalidFormat` when `toml` is not valid as TOML.
pub fn config_from_toml(toml: &str) -> (r: Result<SpringConfig, SpringError>)
    ensures
        toml@.len() == 0 ==> (r matches Ok(c) && c@ == spec_default_config()),
        !toml_parses(toml@) ==> (r matches Err(e) && e matches SpringError::InvalidFormat { s }
            && s@ == toml@),
        toml_parses(toml@) ==> match r {
            Ok(c) => spec_apply_document(spec_default_config(), toml_doc_of(toml@))
                == Option::Some(c@),
            Err(e) => spec_apply_document(spec_default_config(), toml_doc_of(toml@)) is None && e
                matches SpringError::InvalidConfig { .. },
        },
{
    SpringConfigDeserialize::from_toml(toml)
}

} // verus!
