use window_kit::window_manager::{
    colorref, message_action, BuildError, MessageAction, WindowManager, WindowManagerBuilder,
    CS_BYTEALIGNCLIENT, CS_BYTEALIGNWINDOW, CS_CLASSDC, CS_DBLCLKS, CS_DROPSHADOW,
    CS_GLOBALCLASS, CS_HREDRAW, CS_NOCLOSE, CS_OWNDC, CS_PARENTDC, CS_SAVEBITS, CS_VREDRAW,
    WM_DESTROY, WM_PAINT,
};

const THIS_PROCESS: usize = 0x40_0000;

fn manager_builder() -> WindowManagerBuilder {
    WindowManagerBuilder::new(THIS_PROCESS)
}

#[test]
fn test_create_unique_dc() {
    let mut manager_builder = manager_builder();
    manager_builder.create_unique_dc();

    assert_eq!(manager_builder.style(), CS_OWNDC)
}

#[test]
fn test_create_single_dc() {
    let mut manager_builder = manager_builder();
    manager_builder.create_single_dc();

    assert_eq!(manager_builder.style(), CS_CLASSDC)
}

#[test]
fn test_create_cache_dc() {
    let mut manager_builder = manager_builder();
    manager_builder.create_cache_dc();

    assert_eq!(manager_builder.style(), CS_PARENTDC)
}

#[test]
fn test_single_dc_is_set() {
    let mut manager_builder = manager_builder();
    manager_builder
        .create_cache_dc()
        .create_single_dc()
        .create_unique_dc();

    // Device context should be based on the first one set
    assert_eq!(manager_builder.style(), CS_PARENTDC)
}

#[test]
fn first_device_context_wins_in_any_order() {
    let mut b = manager_builder();
    b.create_unique_dc().create_cache_dc().create_single_dc();
    assert_eq!(b.style(), CS_OWNDC);
    let mut b = manager_builder();
    b.create_single_dc().create_unique_dc().create_cache_dc();
    assert_eq!(b.style(), CS_CLASSDC);
}

#[test]
fn test_add_byte_align_clients() {
    let mut manager_builder = manager_builder();
    manager_builder.align_byte_client();

    assert_eq!(manager_builder.style(), CS_BYTEALIGNCLIENT)
}

#[test]
fn test_add_byte_align_window() {
    let mut manager_builder = manager_builder();
    manager_builder.align_byte_window();

    assert_eq!(manager_builder.style(), CS_BYTEALIGNWINDOW)
}

#[test]
fn test_listen_to_dbclick() {
    let mut manager_builder = manager_builder();
    manager_builder.listen_to_dbclick();

    assert_eq!(manager_builder.style(), CS_DBLCLKS)
}

#[test]
fn test_enable_drop_shadow() {
    let mut manager_builder = manager_builder();
    manager_builder.enable_drop_shadow();

    assert_eq!(manager_builder.style(), CS_DROPSHADOW)
}

#[test]
fn test_make_global() {
    let mut manager_builder = manager_builder();
    manager_builder.make_global();

    assert_eq!(manager_builder.style(), CS_GLOBALCLASS)
}

#[test]
fn test_listen_to_vert() {
    let mut manager_builder = manager_builder();
    manager_builder.listen_to_vert();

    assert_eq!(manager_builder.style(), CS_VREDRAW)
}

#[test]
fn test_listen_to_hori() {
    let mut manager_builder = manager_builder();
    manager_builder.listen_to_hori();

    assert_eq!(manager_builder.style(), CS_HREDRAW)
}

#[test]
fn test_disable_close() {
    let mut manager_builder = manager_builder();
    manager_builder.disable_close();

    assert_eq!(manager_builder.style(), CS_NOCLOSE)
}

#[test]
fn test_save_bitmap() {
    let mut manager_builder = manager_builder();
    manager_builder.save_bitmap();

    assert_eq!(manager_builder.style(), CS_SAVEBITS)
}

#[test]
fn test_multiple_options() {
    let mut manager_builder = manager_builder();
    manager_builder
        .align_byte_client()
        .disable_close()
        .enable_drop_shadow()
        .save_bitmap();

    assert_eq!(manager_builder.style(), 137728)
}

#[test]
fn empty_name_is_refused() {
    let mut manager_builder = manager_builder();
    let r = manager_builder.set_name("").build_class();
    assert!(matches!(r, Err(BuildError::EmptyName)));
}

#[test]
fn test_set_name_not_exists() {
    let name = "test-name-not-exists";
    let mut manager_builder = manager_builder();
    let class = manager_builder.set_name(name).build_class().ok().unwrap();

    assert!(manager_builder.classname() == name);
    assert_eq!(class.class_name, name);
    assert_eq!(class.instance, THIS_PROCESS);
    assert!(class.menu_name.is_none());
}

#[test]
fn empty_menu_is_refused() {
    let mut manager_builder = manager_builder();
    let r = manager_builder.set_name("test-menu-empty").set_menu("").build_class();
    assert!(matches!(r, Err(BuildError::EmptyMenu)));
}

#[test]
fn test_set_menu_not_exists() {
    let name = "test";
    let mut manager_builder = manager_builder();
    let class = manager_builder
        .set_name("test-menu-not-exists")
        .set_menu(name)
        .build_class()
        .ok()
        .unwrap();

    assert!(manager_builder.menuname().unwrap() == name);
    assert_eq!(class.menu_name.as_deref(), Some(name));
}

#[test]
fn class_carries_style_and_metadata() {
    let mut b = manager_builder();
    b.set_name("cls")
        .set_instance(5)
        .listen_to_vert()
        .listen_to_hori()
        .allocate_metadata(16)
        .allocate_window_metadata(8);
    let class = b.build_class().ok().unwrap();
    assert_eq!(class.style, CS_VREDRAW | CS_HREDRAW);
    assert_eq!((class.class_extra, class.window_extra), (16, 8));
    assert_eq!(class.instance, 5);
}

#[test]
fn window_manager_keeps_its_name() {
    let m = WindowManager::new("main");
    assert_eq!(m.name(), "main");
    assert!(m.is_named("main"));
    assert!(!m.is_named("other"));
}

#[test]
fn messages_map_to_actions() {
    assert_eq!(message_action(WM_PAINT), MessageAction::Validate);
    assert_eq!(message_action(WM_DESTROY), MessageAction::Quit);
    assert_eq!(message_action(0x100), MessageAction::Default);
}

#[test]
fn colorref_packs_blue_green_red() {
    assert_eq!(colorref(0x12, 0x34, 0x56), 0x0056_3412);
    assert_eq!(colorref(255, 0, 0), 0xff);
    assert_eq!(colorref(0, 0, 255), 0xff_0000);
}
