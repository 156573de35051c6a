use lua_effects::effect::settle;
use lua_effects::error::{EffectError, EngineFailure, SizeMismatch};
use lua_effects::reload::ReloadWatcher;

#[test]
fn watcher_starts_clean() {
    let mut w = ReloadWatcher::new();
    assert!(!w.is_dirty());
    assert_eq!(w.take(), None);
    assert!(!w.is_dirty());
}

#[test]
fn change_makes_dirty_and_take_makes_clean_once() {
    let mut w = ReloadWatcher::new();
    w.file_changed(Ok("cls(1)".to_string()));
    assert!(w.is_dirty());
    assert_eq!(w.take(), Some(Ok("cls(1)".to_string())));
    assert!(!w.is_dirty());
    assert_eq!(w.take(), None);
}

#[test]
fn later_change_supersedes_a_waiting_one() {
    let mut w = ReloadWatcher::new();
    w.file_changed(Ok("first".to_string()));
    w.file_changed(Err("gone".to_string()));
    assert!(w.is_dirty());
    assert_eq!(w.take(), Some(Err("gone".to_string())));
    assert_eq!(w.take(), None);
}

#[test]
fn syntax_failure_is_a_compile_error() {
    assert_eq!(
        EffectError::from_engine(EngineFailure::Syntax("unexpected symbol".to_string())),
        EffectError::ScriptCompile("unexpected symbol".to_string())
    );
}

#[test]
fn other_failure_is_a_runtime_error() {
    assert_eq!(
        EffectError::from_engine(EngineFailure::Other("attempt to call nil".to_string())),
        EffectError::ScriptRuntime("attempt to call nil".to_string())
    );
}

#[test]
fn settle_reports_a_failed_reload_first() {
    let reload = EffectError::ScriptCompile("bad".to_string());
    let frame = EffectError::ScriptRuntime("worse".to_string());
    assert_eq!(settle(None, Ok(())), Ok(()));
    assert_eq!(settle(Some(Ok(())), Ok(())), Ok(()));
    assert_eq!(settle(None, Err(frame.clone())), Err(frame.clone()));
    assert_eq!(settle(Some(Ok(())), Err(frame.clone())), Err(frame.clone()));
    assert_eq!(settle(Some(Err(reload.clone())), Ok(())), Err(reload.clone()));
    assert_eq!(settle(Some(Err(reload.clone())), Err(frame)), Err(reload));
}

#[test]
fn size_mismatch_carries_what_was_seen() {
    let e = EffectError::SizeMismatch(SizeMismatch { width: 320, height: 240, actual: 12 });
    assert_ne!(e, EffectError::ScriptLoad("x".to_string()));
    match e {
        EffectError::SizeMismatch(m) => assert_eq!((m.width, m.height, m.actual), (320, 240, 12)),
        _ => panic!("wrong variant"),
    }
}
