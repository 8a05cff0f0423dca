use flanterm::{
    _print, init_global_flanterm, with_global_flanterm, EngineCommand, FlantermContext,
    FlantermRegistry, GlobalFlantermState,
};

fn handle() -> FlantermContext {
    FlantermContext::from_engine(0x1000, 80, 25).unwrap()
}

fn single_write(ctx: &mut FlantermContext) -> Vec<u8> {
    let cmds = ctx.take_commands();
    assert_eq!(cmds.len(), 1);
    match &cmds[0] {
        EngineCommand::Write(b) => b.clone(),
        other => panic!("expected a write, got {:?}", other),
    }
}

#[test]
fn move_cursor_origin_is_one_based() {
    let mut ctx = handle();
    ctx.move_cursor(0, 0);
    assert_eq!(single_write(&mut ctx), b"\x1b[1;1H".to_vec());
}

#[test]
fn move_cursor_puts_row_first() {
    let mut ctx = handle();
    ctx.move_cursor(4, 9);
    assert_eq!(single_write(&mut ctx), b"\x1b[10;5H".to_vec());
}

#[test]
fn move_cursor_largest_coordinates() {
    let mut ctx = handle();
    ctx.move_cursor(usize::MAX, 99);
    let expected = format!("\x1b[100;{}H", usize::MAX as u128 + 1);
    assert_eq!(single_write(&mut ctx), expected.into_bytes());
}

#[test]
fn set_color_without_background() {
    let mut ctx = handle();
    ctx.set_color(7, None);
    assert_eq!(single_write(&mut ctx), b"\x1b[38;5;7m".to_vec());
}

#[test]
fn set_color_with_background() {
    let mut ctx = handle();
    ctx.set_color(7, Some(0));
    assert_eq!(single_write(&mut ctx), b"\x1b[38;5;7m\x1b[48;5;0m".to_vec());
}

#[test]
fn set_color_three_digit_indices() {
    let mut ctx = handle();
    ctx.set_color(255, Some(128));
    assert_eq!(single_write(&mut ctx), b"\x1b[38;5;255m\x1b[48;5;128m".to_vec());
}

#[test]
fn clear_erases_and_homes() {
    let mut ctx = handle();
    ctx.clear();
    assert_eq!(single_write(&mut ctx), b"\x1b[2J\x1b[H".to_vec());
}

#[test]
fn reset_format_sequence() {
    let mut ctx = handle();
    ctx.reset_format();
    assert_eq!(single_write(&mut ctx), b"\x1b[0m".to_vec());
}

#[test]
fn write_str_sends_utf8_bytes() {
    let mut ctx = handle();
    ctx.write_str("héllo");
    assert_eq!(single_write(&mut ctx), "héllo".as_bytes().to_vec());
}

#[test]
fn commands_keep_their_order() {
    let mut ctx = handle();
    ctx.set_autoflush(false);
    ctx.write_bytes(b"ab");
    ctx.flush();
    ctx.full_refresh();
    assert_eq!(
        ctx.take_commands(),
        vec![
            EngineCommand::SetAutoflush(false),
            EngineCommand::Write(b"ab".to_vec()),
            EngineCommand::Flush,
            EngineCommand::FullRefresh,
        ]
    );
    assert!(ctx.take_commands().is_empty());
}

#[test]
fn failed_initialisation_gives_no_handle() {
    assert!(FlantermContext::from_engine(0, 0, 25).is_none());
}

#[test]
fn handle_reports_dimensions_and_address() {
    let ctx = handle();
    assert_eq!(ctx.get_dimensions(), (80, 25));
    assert_eq!(ctx.as_raw(), 0x1000);
}

#[test]
fn teardown_happens_once() {
    let mut ctx = handle();
    assert_eq!(ctx.teardown(), Some(0x1000));
    assert_eq!(ctx.teardown(), None);
    assert_eq!(ctx.as_raw(), 0);
}

#[test]
fn released_handle_records_nothing() {
    let mut ctx = handle();
    ctx.teardown();
    ctx.clear();
    ctx.write_bytes(b"x");
    ctx.flush();
    assert!(ctx.take_commands().is_empty());
}

#[test]
fn print_before_install_is_dropped() {
    let mut state = GlobalFlantermState::new();
    assert!(!state.is_initialized());
    assert!(!_print(&mut state, "lost"));
    assert!(!_print(&mut state, "also lost"));
    assert!(!state.is_initialized());
    assert_eq!(with_global_flanterm(&mut state, |c| c.take_commands()), None);
}

#[test]
fn print_after_install_is_one_write() {
    let mut state = GlobalFlantermState::new();
    assert!(init_global_flanterm(&mut state, handle()).is_none());
    assert!(state.is_initialized());
    assert!(_print(&mut state, "hi 42\n"));
    let cmds = with_global_flanterm(&mut state, |c| c.take_commands()).unwrap();
    assert_eq!(cmds, vec![EngineCommand::Write(b"hi 42\n".to_vec())]);
}

#[test]
fn reinstall_replaces_handle() {
    let mut state = GlobalFlantermState::new();
    init_global_flanterm(&mut state, handle());
    let second = FlantermContext::from_engine(0x2000, 40, 10).unwrap();
    let previous = init_global_flanterm(&mut state, second).unwrap();
    assert_eq!(previous.as_raw(), 0x1000);
    assert!(state.is_initialized());
    assert_eq!(with_global_flanterm(&mut state, |c| c.as_raw()), Some(0x2000));
}

#[test]
fn registry_before_install_runs_nothing() {
    let registry = FlantermRegistry::new();
    let mut ran = false;
    assert_eq!(registry.with_instance(|_| ran = true), None);
    assert!(!ran);
}

#[test]
fn registry_serves_installed_handle() {
    let registry = FlantermRegistry::new();
    assert!(registry.install(handle()).is_none());
    registry.with_instance(|c| c.move_cursor(1, 2));
    let cmds = registry.with_instance(|c| c.take_commands()).unwrap();
    assert_eq!(cmds, vec![EngineCommand::Write(b"\x1b[3;2H".to_vec())]);
    let second = FlantermContext::from_engine(0x2000, 40, 10).unwrap();
    let previous = registry.install(second).unwrap();
    assert_eq!(previous.as_raw(), 0x1000);
    assert_eq!(registry.with_instance(|c| c.get_dimensions()), Some((40, 10)));
}

#[test]
fn changes_through_closure_persist() {
    let mut state = GlobalFlantermState::new();
    init_global_flanterm(&mut state, handle());
    assert_eq!(with_global_flanterm(&mut state, |c| c.set_autoflush(false)), Some(()));
    let cmds = with_global_flanterm(&mut state, |c| c.take_commands()).unwrap();
    assert_eq!(cmds, vec![EngineCommand::SetAutoflush(false)]);
}

#[test]
fn closure_result_comes_back() {
    let mut state = GlobalFlantermState::new();
    init_global_flanterm(&mut state, handle());
    assert_eq!(with_global_flanterm(&mut state, |c| c.as_raw()), Some(0x1000));
    assert_eq!(with_global_flanterm(&mut state, |_| "value"), Some("value"));
}

#[test]
fn prints_before_install_are_not_replayed() {
    let mut state = GlobalFlantermState::new();
    _print(&mut state, "first");
    _print(&mut state, "second");
    init_global_flanterm(&mut state, handle());
    let cmds = with_global_flanterm(&mut state, |c| c.take_commands()).unwrap();
    assert!(cmds.is_empty());
}

#[test]
fn registry_changes_persist() {
    let registry = FlantermRegistry::new();
    registry.install(handle());
    registry.with_instance(|c| c.set_autoflush(true));
    let cmds = registry.with_instance(|c| c.take_commands()).unwrap();
    assert_eq!(cmds, vec![EngineCommand::SetAutoflush(true)]);
    assert_eq!(registry.with_instance(|c| c.as_raw()), Some(0x1000));
}
