use clunker::events::{AppAction, AppEvent, EventLoopState};

#[test]
fn renders_until_close_then_only_redraws() {
    let mut s = EventLoopState::new();
    assert_eq!(s.handle(AppEvent::MainEventsCleared), AppAction::Render);
    assert_eq!(s.handle(AppEvent::RedrawRequested), AppAction::Nothing);
    assert_eq!(s.handle(AppEvent::CloseRequested), AppAction::Shutdown);
    assert!(s.destroying);
    assert_eq!(s.handle(AppEvent::MainEventsCleared), AppAction::RequestRedraw);
    assert_eq!(s.handle(AppEvent::Other), AppAction::Nothing);
    assert_eq!(s.handle(AppEvent::MainEventsCleared), AppAction::RequestRedraw);
    assert!(s.destroying);
}

#[test]
fn resize_is_passed_on_in_any_state() {
    let mut s = EventLoopState::new();
    assert_eq!(
        s.handle(AppEvent::Resized { width: 640, height: 0 }),
        AppAction::Resize { width: 640, height: 0 }
    );
    s.handle(AppEvent::CloseRequested);
    assert_eq!(
        s.handle(AppEvent::Resized { width: 3, height: 4 }),
        AppAction::Resize { width: 3, height: 4 }
    );
}

#[test]
fn every_close_request_shuts_down() {
    let mut s = EventLoopState::new();
    assert_eq!(s.handle(AppEvent::CloseRequested), AppAction::Shutdown);
    assert_eq!(s.handle(AppEvent::CloseRequested), AppAction::Shutdown);
}
