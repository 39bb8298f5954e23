//! Engine bookkeeping tests: material deduplication, frame pacing, the
//! frame-rate counter and configuration defaulting.

use render_core::config::{
    build_engine_config, parse_present_mode, parse_rendering_backend, ColorCorrectionSettings,
    EntryOutcome, PresentModeChoice, RawEngineConfig, RawEntry, RenderingBackend,
    DEFAULT_FRAME_LATENCY, DEFAULT_MIN_FRAME_TIME_NANOS, DEFAULT_SHADOWMAP_SIZE,
};
use render_core::materials::{get_material_id, resolve_material_ids, MaterialsStorage};
use render_core::timing::{frame_sleep_time, FpsCounter, FrameClock, NANOS_PER_SECOND};

#[test]
fn same_path_registers_once() {
    let mut storage = MaterialsStorage::new();
    let path = "assets/stone.png".to_string();
    let (id1, fresh1) = storage.get_or_insert_2d(&path);
    let (id2, fresh2) = storage.get_or_insert_2d(&path);
    assert_eq!(id1, 0);
    assert!(fresh1);
    assert_eq!(id2, id1);
    assert!(!fresh2);
    assert_eq!(storage.list_2d.len(), 1);
}

#[test]
fn distinct_paths_get_distinct_ids() {
    let mut storage = MaterialsStorage::new();
    let (a, _) = storage.get_or_insert_2d(&"a.png".to_string());
    let (b, _) = storage.get_or_insert_2d(&"b.png".to_string());
    let (a_again, fresh) = storage.get_or_insert_2d(&"a.png".to_string());
    assert_eq!(a, 0);
    assert_eq!(b, 1);
    assert_eq!(a_again, 0);
    assert!(!fresh);
    assert_eq!(storage.list_2d.len(), 2);
}

#[test]
fn cube_list_is_separate() {
    let mut storage = MaterialsStorage::new();
    let path = "skybox.png".to_string();
    let (flat, _) = storage.get_or_insert_2d(&path);
    let (cube, fresh) = storage.get_or_insert_cube(&path);
    assert_eq!(flat, 0);
    assert_eq!(cube, 0);
    assert!(fresh);
    assert_eq!(storage.list_2d.len(), 1);
    assert_eq!(storage.list_cube.len(), 1);
}

#[test]
fn lookup_returns_first_match() {
    let list = vec!["a".to_string(), "b".to_string(), "a".to_string()];
    assert_eq!(get_material_id(&"a".to_string(), &list), Some(0));
    assert_eq!(get_material_id(&"b".to_string(), &list), Some(1));
    assert_eq!(get_material_id(&"c".to_string(), &list), None);
}

#[test]
fn model_materials_resolve_with_dedup() {
    let mut storage = MaterialsStorage::new();
    storage.get_or_insert_2d(&"fallback.png".to_string());
    let names = vec![
        Some("wood.png".to_string()),
        None,
        Some("steel.png".to_string()),
        Some("wood.png".to_string()),
    ];
    let ids = resolve_material_ids(&names, &mut storage);
    assert_eq!(ids, vec![(1, true), (0, false), (2, true), (1, false)]);
    assert_eq!(storage.list_2d.len(), 3);
}

#[test]
fn sleeps_exactly_the_remainder() {
    assert_eq!(frame_sleep_time(3_000_000, 10_000_000), 7_000_000);
    assert_eq!(frame_sleep_time(10_000_000, 10_000_000), 0);
    assert_eq!(frame_sleep_time(25_000_000, 10_000_000), 0);
    assert_eq!(frame_sleep_time(0, 2_000_000), 2_000_000);
}

#[test]
fn frame_clock_yields_elapsed_time() {
    let mut clock = FrameClock::new(100);
    assert_eq!(clock.step_dt(250), 150);
    assert_eq!(clock.step_dt(250), 0);
    assert_eq!(clock.step_dt(100), 0);
    assert_eq!(clock.frame_start, 100);
}

#[test]
fn fps_counter_reports_once_a_second() {
    let mut counter = FpsCounter::new(0);
    assert_eq!(counter.step(10_000_000, 400_000_000), None);
    assert_eq!(counter.step(20_000_000, 800_000_000), None);
    let report = counter.step(30_000_000, 1_100_000_000);
    assert_eq!(report, Some((3, 20_000_000)));
    assert_eq!(counter.frame_count, 0);
    assert_eq!(counter.frame_time_total, 0);
    assert_eq!(counter.next_output_time, NANOS_PER_SECOND);
    assert_eq!(counter.step(5, 1_500_000_000), None);
    assert_eq!(counter.frame_count, 1);
}

#[test]
fn backend_names_parse_lowercased() {
    assert_eq!(parse_rendering_backend(&"auto".to_string()), Some(RenderingBackend::All));
    assert_eq!(parse_rendering_backend(&"vulkan".to_string()), Some(RenderingBackend::Vulkan));
    assert_eq!(parse_rendering_backend(&"dx12".to_string()), Some(RenderingBackend::Dx12));
    assert_eq!(parse_rendering_backend(&"metal".to_string()), Some(RenderingBackend::Metal));
    assert_eq!(parse_rendering_backend(&"opengl".to_string()), Some(RenderingBackend::Gl));
    assert_eq!(parse_rendering_backend(&"software".to_string()), None);
}

#[test]
fn present_modes_parse_lowercased() {
    assert_eq!(parse_present_mode(&"auto_vsync".to_string()), Some(PresentModeChoice::AutoVsync));
    assert_eq!(
        parse_present_mode(&"auto_no_vsync".to_string()),
        Some(PresentModeChoice::AutoVsync)
    );
    assert_eq!(parse_present_mode(&"fifo".to_string()), Some(PresentModeChoice::Fifo));
    assert_eq!(
        parse_present_mode(&"fifo_relaxed".to_string()),
        Some(PresentModeChoice::FifoRelaxed)
    );
    assert_eq!(parse_present_mode(&"immediate".to_string()), Some(PresentModeChoice::Immediate));
    assert_eq!(parse_present_mode(&"mailbox".to_string()), Some(PresentModeChoice::Mailbox));
    assert_eq!(parse_present_mode(&"triple".to_string()), None);
}

#[test]
fn missing_entries_fall_back_to_defaults() {
    let raw = RawEngineConfig {
        rendering_backend: RawEntry::Missing,
        present_mode: RawEntry::Missing,
        desired_frame_latency: RawEntry::Missing,
        min_frame_time_nanos: RawEntry::Missing,
        shadowmap_size: RawEntry::Missing,
    };
    let (config, outcomes) = build_engine_config(&raw);
    assert_eq!(config.rendering_backend, RenderingBackend::All);
    assert_eq!(config.present_mode, PresentModeChoice::AutoVsync);
    assert_eq!(config.desired_frame_latency, DEFAULT_FRAME_LATENCY);
    assert_eq!(config.min_frame_time_nanos, DEFAULT_MIN_FRAME_TIME_NANOS);
    assert_eq!(config.shadowmap_size, DEFAULT_SHADOWMAP_SIZE);
    assert_eq!(outcomes.rendering_backend, EntryOutcome::DefaultedMissing);
    assert_eq!(outcomes.shadowmap_size, EntryOutcome::DefaultedMissing);
}

#[test]
fn malformed_entries_fall_back_with_warnings() {
    let raw = RawEngineConfig {
        rendering_backend: RawEntry::Present("quantum".to_string()),
        present_mode: RawEntry::WrongType,
        desired_frame_latency: RawEntry::Present(-3),
        min_frame_time_nanos: RawEntry::Present(-1),
        shadowmap_size: RawEntry::Present(0),
    };
    let (config, outcomes) = build_engine_config(&raw);
    assert_eq!(config.rendering_backend, RenderingBackend::All);
    assert_eq!(outcomes.rendering_backend, EntryOutcome::DefaultedUnknownValue);
    assert_eq!(config.present_mode, PresentModeChoice::AutoVsync);
    assert_eq!(outcomes.present_mode, EntryOutcome::DefaultedWrongType);
    assert_eq!(config.desired_frame_latency, DEFAULT_FRAME_LATENCY);
    assert_eq!(outcomes.desired_frame_latency, EntryOutcome::DefaultedWrongType);
    assert_eq!(config.min_frame_time_nanos, DEFAULT_MIN_FRAME_TIME_NANOS);
    assert_eq!(outcomes.min_frame_time_nanos, EntryOutcome::DefaultedWrongType);
    assert_eq!(config.shadowmap_size, DEFAULT_SHADOWMAP_SIZE);
    assert_eq!(outcomes.shadowmap_size, EntryOutcome::DefaultedWrongType);
}

#[test]
fn good_entries_are_used() {
    let raw = RawEngineConfig {
        rendering_backend: RawEntry::Present("vulkan".to_string()),
        present_mode: RawEntry::Present("mailbox".to_string()),
        desired_frame_latency: RawEntry::Present(2),
        min_frame_time_nanos: RawEntry::Present(4_000_000),
        shadowmap_size: RawEntry::Present(1024),
    };
    let (config, outcomes) = build_engine_config(&raw);
    assert_eq!(config.rendering_backend, RenderingBackend::Vulkan);
    assert_eq!(config.present_mode, PresentModeChoice::Mailbox);
    assert_eq!(config.desired_frame_latency, 2);
    assert_eq!(config.min_frame_time_nanos, 4_000_000);
    assert_eq!(config.shadowmap_size, 1024);
    assert_eq!(outcomes.rendering_backend, EntryOutcome::Used);
    assert_eq!(outcomes.present_mode, EntryOutcome::Used);
    assert_eq!(outcomes.desired_frame_latency, EntryOutcome::Used);
    assert_eq!(outcomes.min_frame_time_nanos, EntryOutcome::Used);
    assert_eq!(outcomes.shadowmap_size, EntryOutcome::Used);
}

#[test]
fn color_correction_defaults_lift_by_a_tenth() {
    let settings = ColorCorrectionSettings::default();
    assert_eq!(settings.saturation, 72090);
    assert_eq!(settings.brightness, 72090);
}
