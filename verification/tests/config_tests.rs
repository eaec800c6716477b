use notype::config::AppConfig;
use notype::config::ModelSize;
use notype::config::PartialAutotypeMode;
use notype::config::PillPosition;
use notype::config::merge_config;

#[test]
fn default_is_small_and_realtime() {
    let cfg = AppConfig::default();
    assert!(matches!(cfg.model, ModelSize::Small));
    assert!(cfg.realtime_enabled);
}

#[test]
fn default_record_ceiling_and_pill() {
    let cfg = AppConfig::default();
    assert_eq!(cfg.max_record_seconds, 60);
    assert_eq!(cfg.pill_position, None);
    assert!(cfg.auto_type);
    assert!(cfg.text_cleanup);
    assert!(!cfg.llm_postprocess_enabled);
    assert!(matches!(cfg.partial_autotype_mode, PartialAutotypeMode::Replace));
}

#[test]
fn merge_keeps_stored_pill_position() {
    let mut current = AppConfig::default();
    current.pill_position = Some(PillPosition { x: 320, y: 48 });
    let mut incoming = AppConfig::default();
    incoming.max_record_seconds = 90;
    let merged = merge_config(&current, incoming);
    assert_eq!(merged.pill_position, Some(PillPosition { x: 320, y: 48 }));
    assert_eq!(merged.max_record_seconds, 90);
}

#[test]
fn merge_prefers_incoming_pill_position() {
    let mut current = AppConfig::default();
    current.pill_position = Some(PillPosition { x: 1, y: 2 });
    let mut incoming = AppConfig::default();
    incoming.pill_position = Some(PillPosition { x: 7, y: 8 });
    let merged = merge_config(&current, incoming);
    assert_eq!(merged.pill_position, Some(PillPosition { x: 7, y: 8 }));
}

#[test]
fn snapshot_copies_every_field() {
    let mut cfg = AppConfig::default();
    cfg.llm_provider = String::from("local");
    cfg.pill_position = Some(PillPosition { x: 3, y: 4 });
    let copy = cfg.snapshot();
    assert_eq!(copy.llm_provider, "local");
    assert_eq!(copy.pill_position, Some(PillPosition { x: 3, y: 4 }));
    assert_eq!(copy.max_record_seconds, cfg.max_record_seconds);
}
