//! Engine configuration: the decoded startup entries are resolved against
//! documented defaults. A missing or malformed entry never aborts — it
//! falls back to its default and the outcome says so, so the caller can
//! log a warning.
//!
//! The configuration file itself is decoded outside; this module receives
//! each entry as already-typed plain data (or the marks that it was missing
//! or of the wrong type) and makes every defaulting decision.

use vstd::prelude::*;
use vstd::string::*;

verus! {

/// The default frame latency requested from the presentation engine.
pub const DEFAULT_FRAME_LATENCY: u32 = 1;

/// The default minimum frame time: two milliseconds, in nanoseconds.
pub const DEFAULT_MIN_FRAME_TIME_NANOS: u64 = 2_000_000;

/// The default shadow-map side length, in texels.
pub const DEFAULT_SHADOWMAP_SIZE: u32 = 512;

/// The color-correction parameters of the post-process pass, on the
/// fixed-point grid: the defaults lift saturation and brightness by a
/// tenth.
#[derive(Clone, Copy, PartialEq, Eq, Structural, Debug)]
pub struct ColorCorrectionSettings {
    pub saturation: i64,
    pub brightness: i64,
}

impl Default for ColorCorrectionSettings {
    /// The default correction: 1.1 for both parameters, on the fixed-point
    /// grid.
    fn default() -> (r: Self)
        ensures
            r.saturation == 72090,
            r.brightness == 72090,
    {
        ColorCorrectionSettings { saturation: 72090, brightness: 72090 }
    }
}

/// The rendering backend the device is requested from.
#[derive(Clone, Copy, PartialEq, Eq, Structural, Debug)]
pub enum RenderingBackend {
    All,
    Vulkan,
    Dx12,
    Metal,
    Gl,
}

/// The presentation (vsync) mode.
#[derive(Clone, Copy, PartialEq, Eq, Structural, Debug)]
pub enum PresentModeChoice {
    AutoVsync,
    Fifo,
    FifoRelaxed,
    Immediate,
    Mailbox,
}

/// One decoded configuration entry: its value, or the mark that it was
/// absent or carried the wrong type.
pub enum RawEntry<T> {
    Present(T),
    WrongType,
    Missing,
}

/// How one entry was resolved; everything but `Used` warrants a warning.
#[derive(Clone, Copy, PartialEq, Eq, Structural, Debug)]
pub enum EntryOutcome {
    Used,
    DefaultedMissing,
    DefaultedWrongType,
    DefaultedUnknownValue,
}

/// The resolved engine configuration.
#[derive(Clone, Copy, PartialEq, Eq, Structural, Debug)]
pub struct EngineConfig {
    pub rendering_backend: RenderingBackend,
    pub present_mode: PresentModeChoice,
    pub desired_frame_latency: u32,
    pub min_frame_time_nanos: u64,
    pub shadowmap_size: u32,
}

/// The raw entries the configuration decoder hands over.
pub struct RawEngineConfig {
    pub rendering_backend: RawEntry<String>,
    pub present_mode: RawEntry<String>,
    pub desired_frame_latency: RawEntry<i64>,
    pub min_frame_time_nanos: RawEntry<i64>,
    pub shadowmap_size: RawEntry<i64>,
}

/// How each entry was resolved, for the caller's warnings.
#[derive(Clone, Copy, PartialEq, Eq, Structural, Debug)]
pub struct ConfigOutcomes {
    pub rendering_backend: EntryOutcome,
    pub present_mode: EntryOutcome,
    pub desired_frame_latency: EntryOutcome,
    pub min_frame_time_nanos: EntryOutcome,
    pub shadowmap_size: EntryOutcome,
}

/// The backend named by a lowercased configuration string, if any.
pub open spec fn spec_backend_of(s: Seq<char>) -> Option<RenderingBackend> {
    if s == "auto"@ {
        Some(RenderingBackend::All)
    } else if s == "vulkan"@ {
        Some(RenderingBackend::Vulkan)
    } else if s == "dx12"@ {
        Some(RenderingBackend::Dx12)
    } else if s == "metal"@ {
        Some(RenderingBackend::Metal)
    } else if s == "opengl"@ {
        Some(RenderingBackend::Gl)
    } else {
        None
    }
}

/// The present mode named by a lowercased configuration string, if any;
/// the automatic choice without vsync is served by the same mode as the
/// one with it.
pub open spec fn spec_present_mode_of(s: Seq<char>) -> Option<PresentModeChoice> {
    if s == "auto_vsync"@ {
        Some(PresentModeChoice::AutoVsync)
    } else if s == "auto_no_vsync"@ {
        Some(PresentModeChoice::AutoVsync)
    } else if s == "fifo"@ {
        Some(PresentModeChoice::Fifo)
    } else if s == "fifo_relaxed"@ {
        Some(PresentModeChoice::FifoRelaxed)
    } else if s == "immediate"@ {
        Some(PresentModeChoice::Immediate)
    } else if s == "mailbox"@ {
        Some(PresentModeChoice::Mailbox)
    } else {
        None
    }
}

/// Parses the backend choice from a lowercased string.
pub fn parse_rendering_backend(s: &String) -> (r: Option<RenderingBackend>)
    ensures
        r == spec_backend_of(s@),
{
    if s.eq(&String::from_str("auto")) {
        Some(RenderingBackend::All)
    } else if s.eq(&String::from_str("vulkan")) {
        Some(RenderingBackend::Vulkan)
    } else if s.eq(&String::from_str("dx12")) {
        Some(RenderingBackend::Dx12)
    } else if s.eq(&String::from_str("metal")) {
        Some(RenderingBackend::Metal)
    } else if s.eq(&String::from_str("opengl")) {
        Some(RenderingBackend::Gl)
    } else {
        None
    }
}

/// Parses the present-mode choice from a lowercased string.
pub fn parse_present_mode(s: &String) -> (r: Option<PresentModeChoice>)
    ensures
        r == spec_present_mode_of(s@),
{
    if s.eq(&String::from_str("auto_vsync")) {
        Some(PresentModeChoice::AutoVsync)
    } else if s.eq(&String::from_str("auto_no_vsync")) {
        Some(PresentModeChoice::AutoVsync)
    } else if s.eq(&String::from_str("fifo")) {
        Some(PresentModeChoice::Fifo)
    } else if s.eq(&String::from_str("fifo_relaxed")) {
        Some(PresentModeChoice::FifoRelaxed)
    } else if s.eq(&String::from_str("immediate")) {
        Some(PresentModeChoice::Immediate)
    } else if s.eq(&String::from_str("mailbox")) {
        Some(PresentModeChoice::Mailbox)
    } else {
        None
    }
}

/// Resolves an integer entry that must fit a `u32`; anything outside the
/// range counts as malformed and falls back to the default.
pub fn resolve_u32_entry(entry: &RawEntry<i64>, default: u32) -> (r: (u32, EntryOutcome))
    ensures
        match *entry {
            RawEntry::Present(v) => if 0 <= v <= u32::MAX {
                r == ((v as u32), EntryOutcome::Used)
            } else {
                r == (default, EntryOutcome::DefaultedWrongType)
            },
            RawEntry::WrongType => r == (default, EntryOutcome::DefaultedWrongType),
            RawEntry::Missing => r == (default, EntryOutcome::DefaultedMissing),
        },
{
    match entry {
        RawEntry::Present(v) => {
            if 0 <= *v && *v <= 0xffff_ffff {
                ((*v as u32), EntryOutcome::Used)
            } else {
                (default, EntryOutcome::DefaultedWrongType)
            }
        },
        RawEntry::WrongType => (default, EntryOutcome::DefaultedWrongType),
        RawEntry::Missing => (default, EntryOutcome::DefaultedMissing),
    }
}

/// Resolves an integer entry that must be strictly positive and fit a
/// `u32`, such as the shadow-map side length.
pub fn resolve_positive_u32_entry(entry: &RawEntry<i64>, default: u32) -> (r: (u32, EntryOutcome))
    ensures
        match *entry {
            RawEntry::Present(v) => if 1 <= v <= u32::MAX {
                r == ((v as u32), EntryOutcome::Used)
            } else {
                r == (default, EntryOutcome::DefaultedWrongType)
            },
            RawEntry::WrongType => r == (default, EntryOutcome::DefaultedWrongType),
            RawEntry::Missing => r == (default, EntryOutcome::DefaultedMissing),
        },
        r.0 >= 1 || r.0 == default,
{
    match entry {
        RawEntry::Present(v) => {
            if 1 <= *v && *v <= 0xffff_ffff {
                ((*v as u32), EntryOutcome::Used)
            } else {
                (default, EntryOutcome::DefaultedWrongType)
            }
        },
        RawEntry::WrongType => (default, EntryOutcome::DefaultedWrongType),
        RawEntry::Missing => (default, EntryOutcome::DefaultedMissing),
    }
}

/// Resolves a nonnegative nanosecond count.
pub fn resolve_nanos_entry(entry: &RawEntry<i64>, default: u64) -> (r: (u64, EntryOutcome))
    ensures
        match *entry {
            RawEntry::Present(v) => if 0 <= v {
                r == ((v as u64), EntryOutcome::Used)
            } else {
                r == (default, EntryOutcome::DefaultedWrongType)
            },
            RawEntry::WrongType => r == (default, EntryOutcome::DefaultedWrongType),
            RawEntry::Missing => r == (default, EntryOutcome::DefaultedMissing),
        },
{
    match entry {
        RawEntry::Present(v) => {
            if 0 <= *v {
                ((*v as u64), EntryOutcome::Used)
            } else {
                (default, EntryOutcome::DefaultedWrongType)
            }
        },
        RawEntry::WrongType => (default, EntryOutcome::DefaultedWrongType),
        RawEntry::Missing => (default, EntryOutcome::DefaultedMissing),
    }
}

/// Resolves a named-choice entry through a parsed value: present and
/// recognized is used, present but unrecognized falls back with its own
/// outcome.
pub open spec fn choice_outcome<T>(entry: RawEntry<String>, parsed: Option<T>, default: T) -> (
    T,
    EntryOutcome,
) {
    match entry {
        RawEntry::Present(_) => match parsed {
            Some(v) => (v, EntryOutcome::Used),
            None => (default, EntryOutcome::DefaultedUnknownValue),
        },
        RawEntry::WrongType => (default, EntryOutcome::DefaultedWrongType),
        RawEntry::Missing => (default, EntryOutcome::DefaultedMissing),
    }
}

/// Resolves the backend entry from a lowercased string entry.
pub fn resolve_backend_entry(entry: &RawEntry<String>) -> (r: (RenderingBackend, EntryOutcome))
    ensures
        match *entry {
            RawEntry::Present(s) => r == choice_outcome(
                *entry,
                spec_backend_of(s@),
                RenderingBackend::All,
            ),
            RawEntry::WrongType => r == (RenderingBackend::All, EntryOutcome::DefaultedWrongType),
            RawEntry::Missing => r == (RenderingBackend::All, EntryOutcome::DefaultedMissing),
        },
{
    match entry {
        RawEntry::Present(s) => match parse_rendering_backend(s) {
            Some(b) => (b, EntryOutcome::Used),
            None => (RenderingBackend::All, EntryOutcome::DefaultedUnknownValue),
        },
        RawEntry::WrongType => (RenderingBackend::All, EntryOutcome::DefaultedWrongType),
        RawEntry::Missing => (RenderingBackend::All, EntryOutcome::DefaultedMissing),
    }
}

/// Resolves the present-mode entry from a lowercased string entry.
pub fn resolve_present_mode_entry(entry: &RawEntry<String>) -> (r: (
    PresentModeChoice,
    EntryOutcome,
))
    ensures
        match *entry {
            RawEntry::Present(s) => r == choice_outcome(
                *entry,
                spec_present_mode_of(s@),
                PresentModeChoice::AutoVsync,
            ),
            RawEntry::WrongType => r == (
                PresentModeChoice::AutoVsync,
                EntryOutcome::DefaultedWrongType,
            ),
            RawEntry::Missing => r == (
                PresentModeChoice::AutoVsync,
                EntryOutcome::DefaultedMissing,
            ),
        },
{
    match entry {
        RawEntry::Present(s) => match parse_present_mode(s) {
            Some(m) => (m, EntryOutcome::Used),
            None => (PresentModeChoice::AutoVsync, EntryOutcome::DefaultedUnknownValue),
        },
        RawEntry::WrongType => (PresentModeChoice::AutoVsync, EntryOutcome::DefaultedWrongType),
        RawEntry::Missing => (PresentModeChoice::AutoVsync, EntryOutcome::DefaultedMissing),
    }
}

/// Resolves the whole engine configuration against the documented
/// defaults, reporting how each entry fared.
pub fn build_engine_config(raw: &RawEngineConfig) -> (r: (EngineConfig, ConfigOutcomes))
    ensures
        ({
            let (backend, backend_outcome) = (r.0.rendering_backend, r.1.rendering_backend);
            match raw.rendering_backend {
                RawEntry::Present(s) => (backend, backend_outcome) == choice_outcome(
                    raw.rendering_backend,
                    spec_backend_of(s@),
                    RenderingBackend::All,
                ),
                RawEntry::WrongType => backend == RenderingBackend::All && backend_outcome
                    == EntryOutcome::DefaultedWrongType,
                RawEntry::Missing => backend == RenderingBackend::All && backend_outcome
                    == EntryOutcome::DefaultedMissing,
            }
        }),
        ({
            let (mode, mode_outcome) = (r.0.present_mode, r.1.present_mode);
            match raw.present_mode {
                RawEntry::Present(s) => (mode, mode_outcome) == choice_outcome(
                    raw.present_mode,
                    spec_present_mode_of(s@),
                    PresentModeChoice::AutoVsync,
                ),
                RawEntry::WrongType => mode == PresentModeChoice::AutoVsync && mode_outcome
                    == EntryOutcome::DefaultedWrongType,
                RawEntry::Missing => mode == PresentModeChoice::AutoVsync && mode_outcome
                    == EntryOutcome::DefaultedMissing,
            }
        }),
        match raw.desired_frame_latency {
            RawEntry::Present(v) => if 0 <= v <= u32::MAX {
                r.0.desired_frame_latency == v && r.1.desired_frame_latency == EntryOutcome::Used
            } else {
                r.0.desired_frame_latency == DEFAULT_FRAME_LATENCY && r.1.desired_frame_latency
                    == EntryOutcome::DefaultedWrongType
            },
            RawEntry::WrongType => r.0.desired_frame_latency == DEFAULT_FRAME_LATENCY
                && r.1.desired_frame_latency == EntryOutcome::DefaultedWrongType,
            RawEntry::Missing => r.0.desired_frame_latency == DEFAULT_FRAME_LATENCY
                && r.1.desired_frame_latency == EntryOutcome::DefaultedMissing,
        },
        match raw.min_frame_time_nanos {
            RawEntry::Present(v) => if 0 <= v {
                r.0.min_frame_time_nanos == v && r.1.min_frame_time_nanos == EntryOutcome::Used
            } else {
                r.0.min_frame_time_nanos == DEFAULT_MIN_FRAME_TIME_NANOS && r.1.min_frame_time_nanos
                    == EntryOutcome::DefaultedWrongType
            },
            RawEntry::WrongType => r.0.min_frame_time_nanos == DEFAULT_MIN_FRAME_TIME_NANOS
                && r.1.min_frame_time_nanos == EntryOutcome::DefaultedWrongType,
            RawEntry::Missing => r.0.min_frame_time_nanos == DEFAULT_MIN_FRAME_TIME_NANOS
                && r.1.min_frame_time_nanos == EntryOutcome::DefaultedMissing,
        },
        match raw.shadowmap_size {
            RawEntry::Present(v) => if 1 <= v <= u32::MAX {
                r.0.shadowmap_size == v && r.1.shadowmap_size == EntryOutcome::Used
            } else {
                r.0.shadowmap_size == DEFAULT_SHADOWMAP_SIZE && r.1.shadowmap_size
                    == EntryOutcome::DefaultedWrongType
            },
            RawEntry::WrongType => r.0.shadowmap_size == DEFAULT_SHADOWMAP_SIZE
                && r.1.shadowmap_size == EntryOutcome::DefaultedWrongType,
            RawEntry::Missing => r.0.shadowmap_size == DEFAULT_SHADOWMAP_SIZE && r.1.shadowmap_size
                == EntryOutcome::DefaultedMissing,
        },
{
    let (rendering_backend, backend_outcome) = resolve_backend_entry(&raw.rendering_backend);
    let (present_mode, mode_outcome) = resolve_present_mode_entry(&raw.present_mode);
    let (desired_frame_latency, latency_outcome) = resolve_u32_entry(
        &raw.desired_frame_latency,
        DEFAULT_FRAME_LATENCY,
    );
    let (min_frame_time_nanos, frame_time_outcome) = resolve_nanos_entry(
        &raw.min_frame_time_nanos,
        DEFAULT_MIN_FRAME_TIME_NANOS,
    );
    let (shadowmap_size, shadowmap_outcome) = resolve_positive_u32_entry(
        &raw.shadowmap_size,
        DEFAULT_SHADOWMAP_SIZE,
    );
    (
        EngineConfig {
            rendering_backend,
            present_mode,
            desired_frame_latency,
            min_frame_time_nanos,
            shadowmap_size,
        },
        ConfigOutcomes {
            rendering_backend: backend_outcome,
            present_mode: mode_outcome,
            desired_frame_latency: latency_outcome,
            min_frame_time_nanos: frame_time_outcome,
            shadowmap_size: shadowmap_outcome,
        },
    )
}

} // verus!
