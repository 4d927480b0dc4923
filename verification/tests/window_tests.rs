use blazing_fast_engine::engine::application_context::{
    is_drawable_extent, ContextBuilder, ContextManager, WindowAction, WindowEvent,
};
use blazing_fast_engine::engine::context_builder;
use blazing_fast_engine::engine::input::ElementState;

#[test]
fn builder_defaults() {
    let builder = ContextBuilder::new();
    let config = builder.config();
    assert_eq!(config.title, "Window");
    assert_eq!(config.width, 800);
    assert_eq!(config.height, 600);
    assert_eq!(config.icon_path, None);
}

#[test]
fn builder_setters_keep_other_settings() {
    let builder = ContextBuilder::new()
        .title("Blazing Fast Engine")
        .size(1280, 720)
        .icon("assets/icon.png");
    let config = builder.config();
    assert_eq!(config.title, "Blazing Fast Engine");
    assert_eq!(config.width, 1280);
    assert_eq!(config.height, 720);
    assert_eq!(config.icon_path.as_deref(), Some("assets/icon.png"));

    let retitled = builder.title("Other");
    assert_eq!(retitled.config().title, "Other");
    assert_eq!(retitled.config().width, 1280);
    assert_eq!(retitled.config().icon_path.as_deref(), Some("assets/icon.png"));
}

#[test]
fn plain_builder_defaults_and_setters() {
    let builder = context_builder::ContextBuilder::new();
    assert_eq!(builder.config().title, "Window");
    assert_eq!(builder.config().width, 800);
    assert_eq!(builder.config().height, 600);
    let builder = builder.size(320, 200).title("Small");
    assert_eq!(builder.config().title, "Small");
    assert_eq!(builder.config().width, 320);
    assert_eq!(builder.config().height, 200);
}

#[test]
fn drawable_extent_needs_width_and_height() {
    assert!(is_drawable_extent(1, 1));
    assert!(is_drawable_extent(1280, 720));
    assert!(!is_drawable_extent(0, 720));
    assert!(!is_drawable_extent(1280, 0));
    assert!(!is_drawable_extent(0, 0));
}

#[test]
fn pending_contexts_come_out_in_order() {
    let mut manager: ContextManager<&str> = ContextManager::new();
    manager.register("first");
    manager.register("second");
    assert_eq!(manager.len(), 0);
    let pending = manager.take_pending();
    assert_eq!(pending, vec!["first", "second"]);
    assert!(manager.take_pending().is_empty());
}

#[test]
fn unregistered_windows_ignore_events() {
    let manager: ContextManager<u32> = ContextManager::new();
    assert_eq!(manager.window_action(7, WindowEvent::CloseRequested), WindowAction::Ignore);
    assert_eq!(manager.window_action(7, WindowEvent::RedrawRequested), WindowAction::Ignore);
}

#[test]
fn registered_window_actions() {
    let mut manager: ContextManager<u32> = ContextManager::new();
    assert_eq!(manager.insert(7, 70), None);
    assert!(manager.contains(7));
    assert_eq!(
        manager.window_action(7, WindowEvent::Resized { width: 640, height: 480 }),
        WindowAction::Resize { width: 640, height: 480 }
    );
    assert_eq!(manager.window_action(7, WindowEvent::RedrawRequested), WindowAction::Render);
    assert_eq!(manager.window_action(7, WindowEvent::CloseRequested), WindowAction::Close);
    assert_eq!(
        manager.window_action(
            7,
            WindowEvent::KeyboardInput { key_code: Some(30), state: ElementState::Pressed }
        ),
        WindowAction::Key { key_code: 30, state: ElementState::Pressed }
    );
    assert_eq!(
        manager.window_action(
            7,
            WindowEvent::KeyboardInput { key_code: None, state: ElementState::Released }
        ),
        WindowAction::Ignore
    );
    assert_eq!(manager.window_action(7, WindowEvent::Other), WindowAction::Ignore);
}

#[test]
fn closing_the_last_window_exits() {
    let mut manager: ContextManager<u32> = ContextManager::new();
    manager.insert(1, 10);
    manager.insert(2, 20);
    assert_eq!(manager.close(1), (Some(10), false));
    assert!(!manager.contains(1));
    assert_eq!(manager.window_action(1, WindowEvent::CloseRequested), WindowAction::Ignore);
    assert_eq!(manager.close(2), (Some(20), true));
    assert_eq!(manager.len(), 0);
    assert_eq!(manager.close(2), (None, true));
}

#[test]
fn reinserting_a_window_replaces_its_context() {
    let mut manager: ContextManager<u32> = ContextManager::new();
    assert_eq!(manager.insert(3, 30), None);
    assert_eq!(manager.insert(3, 31), Some(30));
    assert_eq!(manager.len(), 1);
}

#[test]
fn contexts_can_be_worked_on_in_place() {
    let mut manager: ContextManager<u32> = ContextManager::new();
    manager.insert(5, 50);
    manager.insert(6, 60);
    *manager.context_mut(5) += 1;
    assert_eq!(manager.close(5), (Some(51), false));
    assert_eq!(manager.close(6), (Some(60), true));
}

#[test]
fn window_ids_lists_each_open_window_once() {
    let mut manager: ContextManager<u32> = ContextManager::new();
    manager.insert(4, 0);
    manager.insert(9, 0);
    manager.insert(4, 1);
    let mut ids = manager.window_ids();
    ids.sort();
    assert_eq!(ids, vec![4, 9]);
}

#[test]
fn close_after_frame_only_when_asked() {
    let mut manager: ContextManager<u32> = ContextManager::new();
    manager.insert(1, 10);
    manager.insert(2, 20);
    assert_eq!(manager.close_after_frame(1, false), (None, false));
    assert!(manager.contains(1));
    assert_eq!(manager.close_after_frame(1, true), (Some(10), false));
    assert!(!manager.contains(1));
    assert_eq!(manager.close_after_frame(2, true), (Some(20), true));
    assert_eq!(manager.len(), 0);
}
