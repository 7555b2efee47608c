//! The tray icon's menu: its entries, and what choosing one does to the settings.

use vstd::prelude::*;
use crate::app_config::AppConfig;
use crate::datatype::InputType;
use crate::platform_win::config::ConfigManager;
use crate::ui_tray::spec_input_type_label;

verus! {

/// `WM_USER + 100`: the message the tray icon sends to the daemon's window.
pub const WM_TRAYICON: u32 = 0x0464;

pub const ID_TRAY_TOGGLE: u32 = 2001;
pub const ID_TRAY_TELEX: u32 = 2002;
pub const ID_TRAY_VNI: u32 = 2003;
pub const ID_TRAY_SIMPLE1: u32 = 2004;
pub const ID_TRAY_SIMPLE2: u32 = 2005;
pub const ID_TRAY_SETTINGS: u32 = 2006;
pub const ID_TRAY_EXIT: u32 = 2007;

/// What the daemon does after a menu command.
#[derive(Debug, Clone, Copy, PartialEq, Eq, Structural)]
pub enum TrayOutcome {
    /// Not a menu command: nothing to do.
    Ignored,
    /// The settings changed: they are to be saved.
    SettingsChanged,
    /// The settings window is to be started.
    OpenSettings,
    /// The daemon is to quit.
    Exit,
}

/// The settings after the menu command `cmd_id`, and what follows it.
pub open spec fn spec_tray_command(cmd_id: u32, cfg: AppConfig) -> (AppConfig, TrayOutcome) {
    if cmd_id == ID_TRAY_TOGGLE {
        (AppConfig { enabled: !cfg.enabled, ..cfg }, TrayOutcome::SettingsChanged)
    } else if cmd_id == ID_TRAY_TELEX {
        (AppConfig { input_type: InputType::Telex, ..cfg }, TrayOutcome::SettingsChanged)
    } else if cmd_id == ID_TRAY_VNI {
        (AppConfig { input_type: InputType::Vni, ..cfg }, TrayOutcome::SettingsChanged)
    } else if cmd_id == ID_TRAY_SIMPLE1 {
        (AppConfig { input_type: InputType::SimpleTelex1, ..cfg }, TrayOutcome::SettingsChanged)
    } else if cmd_id == ID_TRAY_SIMPLE2 {
        (AppConfig { input_type: InputType::SimpleTelex2, ..cfg }, TrayOutcome::SettingsChanged)
    } else if cmd_id == ID_TRAY_SETTINGS {
        (cfg, TrayOutcome::OpenSettings)
    } else if cmd_id == ID_TRAY_EXIT {
        (cfg, TrayOutcome::Exit)
    } else {
        (cfg, TrayOutcome::Ignored)
    }
}

/// Applies the menu command `cmd_id`: the status entry switches the engine
/// on or off, an input-method entry selects that method (the settings are to
/// be saved then); the settings entry and the exit entry change nothing.
pub fn handle_tray_command(cmd_id: u32, config_mgr: &mut ConfigManager) -> (r: TrayOutcome)
    ensures
        (final(config_mgr).current, r) == spec_tray_command(cmd_id, old(config_mgr).current),
        final(config_mgr).path == old(config_mgr).path,
        final(config_mgr).last_modified == old(config_mgr).last_modified,
{
    if cmd_id == ID_TRAY_TOGGLE {
        config_mgr.current.enabled = !config_mgr.current.enabled;
        TrayOutcome::SettingsChanged
    } else if cmd_id == ID_TRAY_TELEX {
        config_mgr.current.input_type = InputType::Telex;
        TrayOutcome::SettingsChanged
    } else if cmd_id == ID_TRAY_VNI {
        config_mgr.current.input_type = InputType::Vni;
        TrayOutcome::SettingsChanged
    } else if cmd_id == ID_TRAY_SIMPLE1 {
        config_mgr.current.input_type = InputType::SimpleTelex1;
        TrayOutcome::SettingsChanged
    } else if cmd_id == ID_TRAY_SIMPLE2 {
        config_mgr.current.input_type = InputType::SimpleTelex2;
        TrayOutcome::SettingsChanged
    } else if cmd_id == ID_TRAY_SETTINGS {
        TrayOutcome::OpenSettings
    } else if cmd_id == ID_TRAY_EXIT {
        TrayOutcome::Exit
    } else {
        TrayOutcome::Ignored
    }
}

/// One entry of the tray menu; a separator has id 0 and no label.
#[derive(Debug, Clone, Copy)]
pub struct MenuEntry {
    pub id: u32,
    pub label: &'static str,
    pub checked: bool,
    pub separator: bool,
}

/// The label of the status entry.
pub open spec fn spec_toggle_label(enabled: bool) -> Seq<char> {
    if enabled { "Status: ON (Click to Disable)"@ } else { "Status: OFF (Click to Enable)"@ }
}

/// Whether `e` is the entry with id `id`, label `label` and check mark `checked`.
pub open spec fn spec_is_entry(e: MenuEntry, id: u32, label: Seq<char>, checked: bool) -> bool {
    e.id == id && e.label@ == label && e.checked == checked && !e.separator
}

/// Whether `e` is a separator.
pub open spec fn spec_is_separator(e: MenuEntry) -> bool {
    e.id == 0 && e.label@.len() == 0 && !e.checked && e.separator
}

/// The tray menu shown with the engine `enabled` and the input method `cur`:
/// the status entry, a separator, the four input methods with the current one
/// checked, a separator, the settings entry and the exit entry.
pub open spec fn spec_is_tray_menu(r: Seq<MenuEntry>, enabled: bool, cur: InputType) -> bool {
    &&& r.len() == 9
    &&& spec_is_entry(r[0], ID_TRAY_TOGGLE, spec_toggle_label(enabled), false)
    &&& spec_is_separator(r[1])
    &&& spec_is_entry(r[2], ID_TRAY_TELEX, "  Telex"@, cur == InputType::Telex)
    &&& spec_is_entry(r[3], ID_TRAY_VNI, "  VNI"@, cur == InputType::Vni)
    &&& spec_is_entry(r[4], ID_TRAY_SIMPLE1, "  Simple Telex 1"@, cur == InputType::SimpleTelex1)
    &&& spec_is_entry(r[5], ID_TRAY_SIMPLE2, "  Simple Telex 2"@, cur == InputType::SimpleTelex2)
    &&& spec_is_separator(r[6])
    &&& spec_is_entry(r[7], ID_TRAY_SETTINGS, "Settings..."@, false)
    &&& spec_is_entry(r[8], ID_TRAY_EXIT, "Exit XXKey"@, false)
}

/// Choosing an input-method entry of the tray menu selects the method whose
/// name its label shows (the names menus use for the methods), changes no
/// other setting and asks for the settings to be saved; the entry shown
/// checked is the one whose method is the current one.
pub proof fn lemma_tray_method_entries(r: Seq<MenuEntry>, enabled: bool, cur: InputType, cfg: AppConfig, i: int)
    requires
        spec_is_tray_menu(r, enabled, cur),
        2 <= i < 6,
    ensures
        ({
            let (after, outcome) = spec_tray_command(r[i].id, cfg);
            &&& outcome == TrayOutcome::SettingsChanged
            &&& after == (AppConfig { input_type: after.input_type, ..cfg })
            &&& r[i].label@ == "  "@ + spec_input_type_label(after.input_type)
            &&& r[i].checked == (after.input_type == cur)
        }),
{
    reveal_strlit("  ");
    reveal_strlit("Telex");
    reveal_strlit("VNI");
    reveal_strlit("Simple Telex 1");
    reveal_strlit("Simple Telex 2");
    reveal_strlit("  Telex");
    reveal_strlit("  VNI");
    reveal_strlit("  Simple Telex 1");
    reveal_strlit("  Simple Telex 2");
    let after = spec_tray_command(r[i].id, cfg).0;
    assert(r[i].label@ =~= "  "@ + spec_input_type_label(after.input_type));
}

/// The status entry switches the engine on or off, the settings entry opens
/// the settings window and the exit entry quits; none of them touches another setting.
pub proof fn lemma_tray_other_entries(r: Seq<MenuEntry>, enabled: bool, cur: InputType, cfg: AppConfig)
    requires
        spec_is_tray_menu(r, enabled, cur),
    ensures
        spec_tray_command(r[0].id, cfg) == (AppConfig { enabled: !cfg.enabled, ..cfg }, TrayOutcome::SettingsChanged),
        spec_tray_command(r[7].id, cfg) == (cfg, TrayOutcome::OpenSettings),
        spec_tray_command(r[8].id, cfg) == (cfg, TrayOutcome::Exit),
{
}

fn entry(id: u32, label: &'static str, checked: bool) -> (r: MenuEntry)
    ensures spec_is_entry(r, id, label@, checked),
{
    MenuEntry { id, label, checked, separator: false }
}

fn separator() -> (r: MenuEntry)
    ensures spec_is_separator(r),
{
    let label = "";
    proof {
        reveal_strlit("");
    }
    MenuEntry { id: 0, label, checked: false, separator: true }
}

/// The tray menu: the status entry, a separator, the four input methods with
/// the current one checked, a separator, the settings entry and the exit entry.
pub fn tray_menu_entries(enabled: bool, current_input: InputType) -> (r: Vec<MenuEntry>)
    ensures
        r@.len() == 9,
        spec_is_entry(r@[0], ID_TRAY_TOGGLE, spec_toggle_label(enabled), false),
        spec_is_separator(r@[1]),
        spec_is_entry(r@[2], ID_TRAY_TELEX, "  Telex"@, current_input == InputType::Telex),
        spec_is_entry(r@[3], ID_TRAY_VNI, "  VNI"@, current_input == InputType::Vni),
        spec_is_entry(r@[4], ID_TRAY_SIMPLE1, "  Simple Telex 1"@, current_input == InputType::SimpleTelex1),
        spec_is_entry(r@[5], ID_TRAY_SIMPLE2, "  Simple Telex 2"@, current_input == InputType::SimpleTelex2),
        spec_is_separator(r@[6]),
        spec_is_entry(r@[7], ID_TRAY_SETTINGS, "Settings..."@, false),
        spec_is_entry(r@[8], ID_TRAY_EXIT, "Exit XXKey"@, false),
        spec_is_tray_menu(r@, enabled, current_input),
{
    let toggle = if enabled { "Status: ON (Click to Disable)" } else { "Status: OFF (Click to Enable)" };
    let mut r: Vec<MenuEntry> = Vec::new();
    r.push(entry(ID_TRAY_TOGGLE, toggle, false));
    r.push(separator());
    r.push(entry(ID_TRAY_TELEX, "  Telex", current_input == InputType::Telex));
    r.push(entry(ID_TRAY_VNI, "  VNI", current_input == InputType::Vni));
    r.push(entry(ID_TRAY_SIMPLE1, "  Simple Telex 1", current_input == InputType::SimpleTelex1));
    r.push(entry(ID_TRAY_SIMPLE2, "  Simple Telex 2", current_input == InputType::SimpleTelex2));
    r.push(separator());
    r.push(entry(ID_TRAY_SETTINGS, "Settings...", false));
    r.push(entry(ID_TRAY_EXIT, "Exit XXKey", false));
    r
}

} // verus!
