//! Tests for the model lifecycle manager.

use super_mouse_ai::model::{ModelError, ModelManager, ModelSlot};

fn unloaded(path: &str, use_gpu: bool) -> ModelSlot {
    ModelSlot::Unloaded { path: path.to_string(), use_gpu }
}

fn loaded(path: &str, use_gpu: bool) -> ModelSlot {
    ModelSlot::Loaded { path: path.to_string(), use_gpu }
}

// Unloading an absent or already-unloaded slot fails with a state
// error; unloading a loaded slot returns to unloaded at the same path.
#[test]
fn unload_transitions() {
    assert!(matches!(ModelSlot::Absent.unload(), Err(ModelError::State(_))));
    assert!(matches!(
        unloaded("/m.bin", false).unload(),
        Err(ModelError::State(_))
    ));
    match loaded("/m.bin", true).unload() {
        Ok(ModelSlot::Unloaded { path, use_gpu }) => {
            assert_eq!(path, "/m.bin");
            assert!(use_gpu);
        }
        other => panic!("unexpected: {other:?}"),
    }
}

// Loading an already-loaded slot is a no-op with zero elapsed time.
#[test]
fn load_on_loaded_is_noop_with_zero_elapsed() {
    let (slot, elapsed) = loaded("/m.bin", false)
        .load(Ok(()), 777)
        .expect("no-op load succeeds");
    assert!(matches!(slot, ModelSlot::Loaded { .. }));
    assert_eq!(elapsed, 0);
}

#[test]
fn load_on_absent_fails_with_state_error() {
    assert!(matches!(
        ModelSlot::Absent.load(Ok(()), 5),
        Err(ModelError::State(_))
    ));
}

#[test]
fn load_on_unloaded_takes_engine_outcome() {
    let (slot, elapsed) = unloaded("/m.bin", true)
        .load(Ok(()), 42)
        .expect("engine construction succeeded");
    match slot {
        ModelSlot::Loaded { path, use_gpu } => {
            assert_eq!(path, "/m.bin");
            assert!(use_gpu);
        }
        other => panic!("unexpected: {other:?}"),
    }
    assert_eq!(elapsed, 42);

    let failed = unloaded("/m.bin", true).load(Err("boom".to_string()), 42);
    match failed {
        Err(ModelError::Engine(m)) => assert_eq!(m, "boom"),
        other => panic!("unexpected: {other:?}"),
    }
}

// Switching path while loaded transitions to unloaded at the new
// path, never silently staying loaded at the old one.
#[test]
fn switch_path_transitions() {
    match loaded("/old.bin", true).switch_path("/new.bin".to_string(), true) {
        Ok(ModelSlot::Unloaded { path, use_gpu }) => {
            assert_eq!(path, "/new.bin");
            assert!(use_gpu);
        }
        other => panic!("unexpected: {other:?}"),
    }
    assert!(matches!(
        unloaded("/old.bin", false).switch_path("/missing.bin".to_string(), false),
        Err(ModelError::Io(_))
    ));
}

#[test]
fn custom_slot_shadows_default() {
    let mut m = ModelManager::new(loaded("/default.bin", false));
    assert!(!m.uses_custom());
    assert_eq!(m.get_model_info(), "Default Model");

    m.replace_custom_model("/custom.bin".to_string(), true, Ok(()))
        .expect("engine built");
    assert!(m.uses_custom());
    assert!(matches!(m.active_slot(), ModelSlot::Loaded { .. }));
    assert_eq!(m.get_model_info(), "Custom Model at: /custom.bin");

    m.remove_custom_model();
    assert!(!m.uses_custom());
    assert_eq!(m.get_model_info(), "Default Model");
}

#[test]
fn replace_custom_model_failure_keeps_previous() {
    let mut m = ModelManager::new(loaded("/default.bin", false));
    m.replace_custom_model("/a.bin".to_string(), false, Ok(()))
        .expect("first replace");
    let e = m.replace_custom_model("/b.bin".to_string(), false, Err("no file".to_string()));
    assert!(matches!(e, Err(ModelError::Engine(_))));
    assert_eq!(m.get_model_info(), "Custom Model at: /a.bin");
}

#[test]
fn error_messages_are_flat() {
    assert_eq!(
        ModelError::Decode(super_mouse_ai::wav::DecodeError::UnsupportedFormat).message(),
        "unsupported audio format"
    );
    assert_eq!(ModelError::Engine("engine said no".to_string()).message(), "engine said no");
    assert_eq!(ModelError::Io("missing".to_string()).message(), "missing");
}
