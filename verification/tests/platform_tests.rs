use xxkey::app_config::{config_text, parse_i32, read_config, AppConfig};
use xxkey::datatype::InputType;
use xxkey::keycode::{KEY_0, KEY_1, KEY_A, KEY_DELETE, KEY_LEFT_BRACKET, KEY_SPACE, KEY_Z};
use xxkey::platform_linux::config::{get_config_path, ConfigManager};
use xxkey::platform_linux::daemon::{format_char_code, LinuxDaemon};
use xxkey::platform_linux::injector::{generate_edit_command, BufferInjector, EditCommand};
use xxkey::platform_linux::key_map::{
    keysym_to_logical_key, ModifierState, XK_BACKSPACE, XK_BRACKETLEFT, XK_CAPS_LOCK,
    XK_CONTROL_L, XK_SHIFT_L, XK_SPACE,
};
use xxkey::platform_win::config as win_config;
use xxkey::platform_win::hook::{HookAction, KeyboardHook};
use xxkey::platform_win::injector::{edit_keystrokes, Keystroke, KEYEVENTF_KEYUP, KEYEVENTF_UNICODE};
use xxkey::platform_win::tray::{
    handle_tray_command, tray_menu_entries, TrayOutcome, ID_TRAY_EXIT, ID_TRAY_SETTINGS,
    ID_TRAY_TOGGLE, ID_TRAY_VNI,
};
use xxkey::platform_win::vk_map::{vk_to_logical_key, VK_BACK, VK_OEM_4};
use xxkey::ui_settings::{desktop_entry, load_settings, settings_text};
use xxkey::ui_tray::{input_type_label, TrayMenuConfig};

// ---------------------------------------------------------------------------
// Settings
// ---------------------------------------------------------------------------

#[test]
fn config_test_config_default() {
    let config = AppConfig::default();
    assert!(config.enabled);
    assert_eq!(config.input_type, InputType::Telex);
    assert!(config.modern);
    assert!(config.spelling);
}

#[test]
fn test_config_default() {
    let config = win_config::AppConfig::default();
    assert!(config.enabled);
    assert_eq!(config.input_type, InputType::Telex);
    assert!(config.modern);
    assert!(config.spelling);
}

#[test]
fn test_config_save_and_reload() {
    let mut mgr = ConfigManager::with_path("test_xxkey_linux_config_tmp".to_string());
    mgr.current.enabled = false;
    mgr.current.input_type = InputType::Vni;
    mgr.current.modern = false;
    let text = mgr.save_text();

    let mut mgr2 = ConfigManager::with_path("test_xxkey_linux_config_tmp".to_string());
    mgr2.apply_file(&text);
    assert!(!mgr2.current.enabled);
    assert_eq!(mgr2.current.input_type, InputType::Vni);
    assert!(!mgr2.current.modern);
}

#[test]
fn config_text_exact() {
    let cfg = AppConfig { enabled: false, input_type: InputType::SimpleTelex2, modern: true, spelling: false, use_macro: true, autostart: false };
    assert_eq!(
        config_text(&cfg),
        "enabled=false\ninput_type=3\nmodern=true\nspelling=false\nuse_macro=true\nautostart=false\n"
    );
}

#[test]
fn config_read_handles_spaces_numbers_and_junk() {
    let base = AppConfig::default();
    let text = "  enabled = 0 \r\ninput_type= 2\nmodern=1\nfoo=bar\nspelling==true\nuse_macro=true\nbad line\n";
    let cfg = read_config(&base, text);
    assert!(!cfg.enabled);
    assert_eq!(cfg.input_type, InputType::SimpleTelex1);
    assert!(cfg.modern);
    assert!(cfg.spelling);
    assert!(cfg.use_macro);
    assert!(cfg.autostart);
}

#[test]
fn config_input_type_numbers() {
    let base = AppConfig::default();
    assert_eq!(read_config(&base, "input_type=1").input_type, InputType::Vni);
    assert_eq!(read_config(&base, "input_type=7").input_type, InputType::Telex);
    assert_eq!(read_config(&base, "input_type=-1").input_type, InputType::Telex);
    let vni = AppConfig { input_type: InputType::Vni, ..AppConfig::default() };
    assert_eq!(read_config(&vni, "input_type=x").input_type, InputType::Vni);
    assert_eq!(read_config(&vni, "input_type=99999999999").input_type, InputType::Vni);
}

#[test]
fn parse_i32_like_std() {
    let p = |s: &str| parse_i32(&s.chars().collect());
    assert_eq!(p("42"), Some(42));
    assert_eq!(p("+5"), Some(5));
    assert_eq!(p("-0"), Some(0));
    assert_eq!(p("2147483647"), Some(i32::MAX));
    assert_eq!(p("-2147483648"), Some(i32::MIN));
    assert_eq!(p("2147483648"), None);
    assert_eq!(p(""), None);
    assert_eq!(p("+"), None);
    assert_eq!(p("1a"), None);
    assert_eq!(p(" 1"), None);
    for s in ["0", "17", "-99", "+3", "x", "--1", "2147483648", "-2147483649", "00012"] {
        assert_eq!(p(s), s.parse::<i32>().ok());
    }
}

#[test]
fn config_path_from_environment() {
    assert_eq!(get_config_path(Some("/tmp/cfg"), Some("/home/u")), "/tmp/cfg/xxkey/config");
    assert_eq!(get_config_path(Some("/tmp/cfg/"), None), "/tmp/cfg/xxkey/config");
    assert_eq!(get_config_path(Some(""), Some("/home/u")), "/home/u/.config/xxkey/config");
    assert_eq!(get_config_path(None, None), "./.config/xxkey/config");
}

#[test]
fn config_check_is_throttled() {
    let mut mgr = ConfigManager::new(None, Some("/home/u"));
    assert!(mgr.check_due(5000));
    assert!(!mgr.check_due(5500));
    assert!(!mgr.check_due(4000));
    assert!(mgr.check_due(6000));
}

#[test]
fn config_reread_only_on_new_mtime() {
    let mut mgr = ConfigManager::with_path("p".to_string());
    assert!(mgr.file_changed(Some(10)));
    assert!(!mgr.file_changed(Some(10)));
    assert!(mgr.file_changed(Some(11)));
    assert!(mgr.file_changed(None));
    assert!(mgr.file_changed(None));
    mgr.mark_saved(true, Some(12), 100);
    assert!(!mgr.file_changed(Some(12)));
    assert_eq!(mgr.last_check, Some(100));
}

#[test]
fn windows_config_path() {
    assert_eq!(win_config::get_config_path(Some("C:\\Users\\me"), Some("x")), "C:\\Users\\me\\.xxkey_config");
    assert_eq!(win_config::get_config_path(None, Some("/home/u/")), "/home/u/.xxkey_config");
    assert_eq!(win_config::get_config_path(Some("C:"), None), "C:.xxkey_config");
    assert_eq!(win_config::get_config_path(None, None), ".\\.xxkey_config");
}

#[test]
fn windows_config_roundtrip() {
    let mut mgr = win_config::ConfigManager::new(Some("C:\\Users\\me"), None);
    mgr.current.use_macro = true;
    mgr.current.input_type = InputType::SimpleTelex1;
    let text = mgr.save_text();
    let mut mgr2 = win_config::ConfigManager::new(Some("C:\\Users\\me"), None);
    mgr2.apply_file(&text);
    assert_eq!(mgr2.current, mgr.current);
}

// ---------------------------------------------------------------------------
// Edit commands
// ---------------------------------------------------------------------------

#[test]
fn test_generate_edit_command() {
    let raw_chars = vec!['n' as u32, 'â' as u32, 'V' as u32];
    let cmd = generate_edit_command(2, &raw_chars, 3);
    assert_eq!(cmd.backspace_count, 2);
    assert_eq!(cmd.chars, vec!['V' as u32, 'â' as u32, 'n' as u32]);
    assert_eq!(cmd.to_string(), "Vân");
}

#[test]
fn test_buffer_injector_reuse() {
    let mut injector = BufferInjector::new();
    let raw = vec!['a' as u32];
    let cmd1 = injector.prepare(1, &raw, 1);
    assert_eq!(cmd1.backspace_count, 1);
    assert_eq!(cmd1.to_string(), "a");

    let raw2 = vec!['b' as u32, 'a' as u32];
    let cmd2 = injector.prepare(0, &raw2, 2);
    assert_eq!(cmd2.backspace_count, 0);
    assert_eq!(cmd2.to_string(), "ab");
}

#[test]
fn edit_command_count_beyond_data() {
    let cmd = generate_edit_command(0, &['x' as u32, 'y' as u32], 5);
    assert_eq!(cmd.chars, vec!['y' as u32, 'x' as u32]);
    let cmd = generate_edit_command(0, &['x' as u32, 'y' as u32], 1);
    assert_eq!(cmd.chars, vec!['x' as u32]);
}

#[test]
fn edit_command_text_skips_invalid_code_points() {
    let cmd = EditCommand { backspace_count: 0, chars: vec!['a' as u32, 0xD800, 0x1F600, 0x110000, 'b' as u32] };
    assert_eq!(cmd.to_string(), "a\u{1F600}b");
    let mut cmd = cmd;
    cmd.clear();
    assert_eq!(cmd, EditCommand::default());
}

#[test]
fn format_char_code_cases() {
    // a character code carries its code point
    assert_eq!(format_char_code(0x0200_00E2), 0x00E2);
    // a key code maps to its character
    assert_eq!(format_char_code(KEY_A as u32), 'a' as u32);
    // an unknown key code keeps its low bits
    assert_eq!(format_char_code(0xFFFF), 0xFFFF);
}

// ---------------------------------------------------------------------------
// Key maps and modifiers
// ---------------------------------------------------------------------------

#[test]
fn test_keysym_mappings() {
    assert_eq!(keysym_to_logical_key(0x0061), Some(KEY_A));
    assert_eq!(keysym_to_logical_key(0x0041), Some(KEY_A));
    assert_eq!(keysym_to_logical_key(0x007A), Some(KEY_Z));
    assert_eq!(keysym_to_logical_key(0x0030), Some(KEY_0));
    assert_eq!(keysym_to_logical_key(XK_BACKSPACE), Some(KEY_DELETE));
    assert_eq!(keysym_to_logical_key(XK_SPACE), Some(KEY_SPACE));
    assert_eq!(keysym_to_logical_key(XK_BRACKETLEFT), Some(KEY_LEFT_BRACKET));
    assert_eq!(keysym_to_logical_key(0xFFFF_FFFF), None);
}

#[test]
fn key_map_test_modifier_caps() {
    let mut mods = ModifierState::default();
    assert!(!mods.is_caps());
    mods.shift = true;
    assert!(mods.is_caps());
    mods.caps_lock = true;
    assert!(!mods.is_caps());
    mods.shift = false;
    assert!(mods.is_caps());
}

#[test]
fn test_control_modifier() {
    let mut mods = ModifierState::default();
    assert!(!mods.has_control_modifier());
    mods.ctrl = true;
    assert!(mods.has_control_modifier());
    mods.ctrl = false;
    mods.super_key = true;
    assert!(mods.has_control_modifier());
}

#[test]
fn test_vk_mappings() {
    assert_eq!(vk_to_logical_key(0x41), Some(KEY_A));
    assert_eq!(vk_to_logical_key(0x5A), Some(KEY_Z));
    assert_eq!(vk_to_logical_key(0x30), Some(KEY_0));
    assert_eq!(vk_to_logical_key(0x31), Some(KEY_1));
    assert_eq!(vk_to_logical_key(VK_BACK), Some(KEY_DELETE));
    assert_eq!(vk_to_logical_key(0x20), Some(KEY_SPACE));
    assert_eq!(vk_to_logical_key(VK_OEM_4), Some(KEY_LEFT_BRACKET));
    assert_eq!(vk_to_logical_key(0xFF), None);
}

#[test]
fn vk_map_test_modifier_caps() {
    let mut mods = xxkey::platform_win::vk_map::ModifierState::default();
    assert!(!mods.is_caps());
    mods.shift = true;
    assert!(mods.is_caps());
    mods.caps_lock = true;
    assert!(!mods.is_caps());
    mods.shift = false;
    assert!(mods.is_caps());
}

// ---------------------------------------------------------------------------
// The Linux daemon
// ---------------------------------------------------------------------------

#[test]
fn test_daemon_hotkey_toggle() {
    let cfg_mgr = ConfigManager::with_path("test_daemon_hotkey_tmp".to_string());
    let mut daemon = LinuxDaemon::with_config(cfg_mgr);
    assert!(daemon.config_mgr.current.enabled);

    daemon.update_modifiers(XK_CONTROL_L, true);
    let res = daemon.process_key(XK_SPACE, true);
    assert!(res.is_none());
    assert!(!daemon.config_mgr.current.enabled);

    let res2 = daemon.process_key(XK_SPACE, true);
    assert!(res2.is_none());
    assert!(daemon.config_mgr.current.enabled);
}

#[test]
fn test_daemon_telex_typing() {
    let cfg_mgr = ConfigManager::with_path("test_daemon_typing_tmp".to_string());
    let mut daemon = LinuxDaemon::with_config(cfg_mgr);
    daemon.config_mgr.current.input_type = InputType::Telex;

    let cmd1 = daemon.process_key(0x0064, true);
    assert!(cmd1.is_none());

    let cmd2 = daemon.process_key(0x0064, true).unwrap();
    assert_eq!(cmd2.backspace_count, 1);
    assert_eq!(cmd2.chars.len(), 1);
    assert_eq!(cmd2.chars[0], 'đ' as u32);
    assert_eq!(cmd2.to_string(), "đ");

    let cmd3 = daemon.process_key(0x0061, true);
    assert!(cmd3.is_none());

    let cmd4 = daemon.process_key(0x0061, true).unwrap();
    assert_eq!(cmd4.backspace_count, 1);
    assert_eq!(cmd4.chars[0], 'â' as u32);
    assert_eq!(cmd4.to_string(), "â");

    let cmd5 = daemon.process_key(0x0073, true).unwrap();
    assert_eq!(cmd5.backspace_count, 1);
    assert_eq!(cmd5.chars[0], 'ấ' as u32);
    assert_eq!(cmd5.to_string(), "ấ");
}

#[test]
fn daemon_releases_and_shortcuts_pass() {
    let mut daemon = LinuxDaemon::with_config(ConfigManager::with_path("p".to_string()));
    assert!(daemon.process_key(0x0061, false).is_none());
    daemon.process_key(XK_CONTROL_L, true);
    assert!(daemon.process_key(0x0061, true).is_none());
    assert_eq!(daemon.engine.len(), 0);
    daemon.process_key(XK_CONTROL_L, false);
    assert!(!daemon.modifiers.ctrl);
}

#[test]
fn daemon_alt_z_toggles_and_caps_lock_flips() {
    let mut daemon = LinuxDaemon::new(Some("/tmp/x"), None);
    daemon.update_modifiers(XK_CAPS_LOCK, true);
    assert!(daemon.modifiers.caps_lock);
    daemon.update_modifiers(XK_CAPS_LOCK, false);
    assert!(daemon.modifiers.caps_lock);
    daemon.update_modifiers(XK_CAPS_LOCK, true);
    assert!(!daemon.modifiers.caps_lock);
    daemon.process_key(0xFFE9, true);
    assert!(daemon.process_key(0x005A, true).is_none());
    assert!(!daemon.config_mgr.current.enabled);
}

#[test]
fn daemon_shift_gives_capitals() {
    let mut daemon = LinuxDaemon::with_config(ConfigManager::with_path("p".to_string()));
    daemon.process_key(XK_SHIFT_L, true);
    assert!(daemon.process_key(0x0044, true).is_none());
    let cmd = daemon.process_key(0x0044, true).unwrap();
    assert_eq!(cmd.to_string(), "Đ");
}

#[test]
fn daemon_vni_setting_reaches_engine() {
    let mut daemon = LinuxDaemon::with_config(ConfigManager::with_path("p".to_string()));
    daemon.config_mgr.apply_file("input_type=1\n");
    assert!(daemon.process_key(0x0061, true).is_none());
    let cmd = daemon.process_key(0x0036, true).unwrap();
    assert_eq!(cmd.to_string(), "â");
    assert_eq!(daemon.engine.cfg.input_type, InputType::Vni);
}

// ---------------------------------------------------------------------------
// The Windows hook, tray and keystrokes
// ---------------------------------------------------------------------------

#[test]
fn hook_replaces_typed_keys() {
    let mgr = win_config::ConfigManager::new(Some("C:\\u"), None);
    let mut hook = KeyboardHook::new(mgr, 0);
    assert_eq!(hook.handle_key_event(0x44, true, false), HookAction::PassThrough);
    match hook.handle_key_event(0x44, true, false) {
        HookAction::Replace { backspace_count, chars } => {
            assert_eq!(backspace_count, 1);
            assert_eq!(chars.len(), 1);
        }
        other => panic!("unexpected {:?}", other),
    }
    assert_eq!(hook.handle_key_event(0x44, false, false), HookAction::PassThrough);
}

#[test]
fn hook_hotkey_and_disabled() {
    let mgr = win_config::ConfigManager::new(None, None);
    let mut hook = KeyboardHook::new(mgr, 0);
    hook.handle_key_event(0x11, true, false);
    assert_eq!(hook.handle_key_event(0x20, true, false), HookAction::Toggled);
    assert!(!hook.config_mgr.current.enabled);
    hook.handle_key_event(0x11, false, false);
    assert_eq!(hook.handle_key_event(0x41, true, false), HookAction::PassThrough);
    assert_eq!(hook.engine.len(), 0);
}

#[test]
fn hook_config_check_every_second() {
    let mut hook = KeyboardHook::new(win_config::ConfigManager::new(None, None), 1000);
    assert!(!hook.config_check_due(1500));
    assert!(hook.config_check_due(2000));
    assert!(!hook.config_check_due(2999));
    assert!(hook.config_check_due(3000));
}

#[test]
fn keystrokes_for_an_edit() {
    let ks = edit_keystrokes(1, &['a' as u32, 0, 0x1F600]);
    assert_eq!(ks.len(), 2 + 2 + 4);
    assert_eq!(ks[0], Keystroke { vk: 0x08, scan: 0, flags: 0 });
    assert_eq!(ks[1], Keystroke { vk: 0x08, scan: 0, flags: KEYEVENTF_KEYUP });
    assert_eq!(ks[2], Keystroke { vk: 0, scan: 'a' as u16, flags: KEYEVENTF_UNICODE });
    assert_eq!(ks[3].flags, KEYEVENTF_UNICODE | KEYEVENTF_KEYUP);
    let mut units = [0u16; 2];
    let expected = char::from_u32(0x1F600).unwrap().encode_utf16(&mut units);
    assert_eq!(ks[4].scan, expected[0]);
    assert_eq!(ks[6].scan, expected[1]);
    assert!(edit_keystrokes(0, &[0xD800]).is_empty());
}

#[test]
fn tray_commands() {
    let mut mgr = win_config::ConfigManager::new(None, None);
    assert_eq!(handle_tray_command(ID_TRAY_TOGGLE, &mut mgr), TrayOutcome::SettingsChanged);
    assert!(!mgr.current.enabled);
    assert_eq!(handle_tray_command(ID_TRAY_VNI, &mut mgr), TrayOutcome::SettingsChanged);
    assert_eq!(mgr.current.input_type, InputType::Vni);
    assert_eq!(handle_tray_command(ID_TRAY_SETTINGS, &mut mgr), TrayOutcome::OpenSettings);
    assert_eq!(handle_tray_command(ID_TRAY_EXIT, &mut mgr), TrayOutcome::Exit);
    assert_eq!(handle_tray_command(42, &mut mgr), TrayOutcome::Ignored);
}

#[test]
fn tray_menu_contents() {
    let entries = tray_menu_entries(true, InputType::Vni);
    assert_eq!(entries.len(), 9);
    assert_eq!(entries[0].label, "Status: ON (Click to Disable)");
    assert!(entries[1].separator);
    assert!(!entries[2].checked);
    assert!(entries[3].checked);
    assert_eq!(entries[3].label, "  VNI");
    assert_eq!(entries[8].label, "Exit XXKey");
    assert_eq!(tray_menu_entries(false, InputType::Telex)[0].label, "Status: OFF (Click to Enable)");
}

#[test]
fn test_tray_labels() {
    assert_eq!(input_type_label(InputType::Telex), "Telex");
    assert_eq!(input_type_label(InputType::Vni), "VNI");
    assert_eq!(input_type_label(InputType::SimpleTelex1), "Simple Telex 1");
    assert_eq!(input_type_label(InputType::SimpleTelex2), "Simple Telex 2");
}

#[test]
fn tray_menu_config_default() {
    let c = TrayMenuConfig::default();
    assert!(c.enabled);
    assert_eq!(c.current_input_type, InputType::Telex);
}

// ---------------------------------------------------------------------------
// The settings window's file
// ---------------------------------------------------------------------------

#[test]
fn settings_load_defaults_and_autostart_from_system() {
    let cfg = load_settings(None, true);
    assert_eq!(cfg.input_type, 0);
    assert!(cfg.modern && cfg.spelling && !cfg.use_macro && cfg.autostart);
    let cfg = load_settings(Some("input_type=-7\nuse_macro=true\nautostart=true\nenabled=false\n"), false);
    assert_eq!(cfg.input_type, -7);
    assert!(cfg.use_macro);
    assert!(!cfg.autostart);
}

#[test]
fn settings_text_roundtrip() {
    let cfg = xxkey::ui_settings::AppConfig { input_type: -2147483648, modern: false, spelling: true, use_macro: true, autostart: false };
    let text = settings_text(&cfg);
    assert_eq!(text, "input_type=-2147483648\nmodern=false\nspelling=true\nuse_macro=true\nautostart=false\n");
    assert_eq!(load_settings(Some(&text), false), cfg);
}

#[test]
fn desktop_entry_text() {
    assert_eq!(
        desktop_entry("/opt/xxkey/xxkey-daemon"),
        "[Desktop Entry]\nType=Application\nExec=/opt/xxkey/xxkey-daemon\nHidden=false\nNoDisplay=false\nX-GNOME-Autostart-enabled=true\nName=XXKey\nComment=Vietnamese Input Method\n"
    );
}
