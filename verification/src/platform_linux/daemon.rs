//! The Linux daemon's handling of each key: modifier tracking, the on/off
//! hotkey, passing keys through, and turning the engine's output into an edit.

use vstd::prelude::*;
use crate::app_config::{spec_engine_cfg, AppConfig};
use crate::datatype::{HookCode, KeyEvent, KeyEventState, CHAR_CODE_MASK};
use crate::engine::{Engine, EngineConfig};
use crate::vietnamese::{key_code_to_character, spec_key_code_to_character};
use crate::platform_linux::config::ConfigManager;
use crate::platform_linux::injector::{spec_typed_order, BufferInjector, EditCommand};
use crate::platform_linux::key_map::{
    keysym_to_logical_key, spec_keysym_to_logical_key, ModifierState, XK_ALT_L, XK_ALT_R,
    XK_CAPS_LOCK, XK_CONTROL_L, XK_CONTROL_R, XK_SHIFT_L, XK_SHIFT_R, XK_SPACE, XK_SUPER_L,
    XK_SUPER_R,
};

verus! {

/// The code point of an engine output entry: an entry marked as a character
/// code carries it in its low 16 bits; any other is a key code with flags,
/// whose character the Unicode table gives (its low 16 bits where it has none).
pub open spec fn spec_format_char_code(code: u32) -> u32 {
    if code & CHAR_CODE_MASK != 0 {
        code & 0xFFFF
    } else {
        let ch = spec_key_code_to_character(code);
        if ch == 0 { code & 0xFFFF } else { ch as u32 }
    }
}

/// Converts an engine output entry into a Unicode code point (see `spec_format_char_code`).
pub fn format_char_code(code: u32) -> (r: u32)
    ensures r == spec_format_char_code(code),
{
    if code & CHAR_CODE_MASK != 0 {
        code & 0xFFFF
    } else {
        let ch = key_code_to_character(code);
        if ch == 0 {
            code & 0xFFFF
        } else {
            ch as u32
        }
    }
}

/// The modifiers after a key event: Shift, Ctrl, Alt and Super follow their
/// keys, Caps Lock flips on each press.
pub open spec fn spec_update_modifiers(m: ModifierState, keysym: u32, is_down: bool) -> ModifierState {
    if keysym == XK_SHIFT_L || keysym == XK_SHIFT_R {
        ModifierState { shift: is_down, ..m }
    } else if keysym == XK_CONTROL_L || keysym == XK_CONTROL_R {
        ModifierState { ctrl: is_down, ..m }
    } else if keysym == XK_ALT_L || keysym == XK_ALT_R {
        ModifierState { alt: is_down, ..m }
    } else if keysym == XK_SUPER_L || keysym == XK_SUPER_R {
        ModifierState { super_key: is_down, ..m }
    } else if keysym == XK_CAPS_LOCK && is_down {
        ModifierState { caps_lock: !m.caps_lock, ..m }
    } else {
        m
    }
}

/// The on/off hotkey: Ctrl+Space or Alt+Z (either case), on key down.
pub open spec fn spec_is_toggle_hotkey(m: ModifierState, keysym: u32, is_down: bool) -> bool {
    is_down && ((m.ctrl && keysym == XK_SPACE) || (m.alt && (keysym == 0x007A || keysym == 0x005A)))
}

/// Engine results that replace text on screen.
pub open spec fn spec_edits_text(code: HookCode) -> bool {
    code == HookCode::WillProcess || code == HookCode::Restore || code == HookCode::ReplaceMacro
        || code == HookCode::RestoreAndStartNewSession
}

/// The code points of engine output entries.
pub open spec fn spec_formatted(data: Seq<u32>) -> Seq<u32> {
    data.map_values(|c: u32| spec_format_char_code(c))
}

/// The daemon: the engine, the settings, the modifiers held and the edit
/// command of the last key.
pub struct LinuxDaemon {
    pub engine: Engine,
    pub config_mgr: ConfigManager,
    pub modifiers: ModifierState,
    pub injector: BufferInjector,
}

impl LinuxDaemon {
    /// The daemon's invariant is the engine's.
    pub open spec fn wf(&self) -> bool {
        self.engine.wf()
    }

    /// A daemon over the settings file that `XDG_CONFIG_HOME` and `HOME` give
    /// (see `ConfigManager::new`).
    pub fn new(config_home: Option<&str>, home: Option<&str>) -> (r: Self)
        ensures
            r.wf(),
            r.engine.spec_len() == 0,
            r.engine.spec_state().is_initial(),
            r.modifiers == ModifierState::default_state(),
            r.config_mgr.current == crate::app_config::spec_default_config(),
            r.config_mgr.last_check is None,
    {
        Self::with_config(ConfigManager::new(config_home, home))
    }

    /// A daemon over the settings `config_mgr`, with a fresh engine and no modifier held.
    pub fn with_config(config_mgr: ConfigManager) -> (r: Self)
        ensures
            r.wf(),
            r.engine.spec_len() == 0,
            r.engine.spec_state().is_initial(),
            r.engine.spec_cfg().is_default(),
            r.modifiers == ModifierState::default_state(),
            r.config_mgr == config_mgr,
            r.injector.current_command.chars@.len() == 0,
    {
        LinuxDaemon {
            engine: Engine::default(),
            config_mgr,
            modifiers: ModifierState::default(),
            injector: BufferInjector::new(),
        }
    }

    /// Tracks the modifiers through a key event (see `spec_update_modifiers`).
    pub fn update_modifiers(&mut self, keysym: u32, is_down: bool)
        ensures
            final(self).modifiers == spec_update_modifiers(old(self).modifiers, keysym, is_down),
            final(self).engine == old(self).engine,
            final(self).config_mgr == old(self).config_mgr,
            final(self).injector == old(self).injector,
    {
        if keysym == XK_SHIFT_L || keysym == XK_SHIFT_R {
            self.modifiers.shift = is_down;
        } else if keysym == XK_CONTROL_L || keysym == XK_CONTROL_R {
            self.modifiers.ctrl = is_down;
        } else if keysym == XK_ALT_L || keysym == XK_ALT_R {
            self.modifiers.alt = is_down;
        } else if keysym == XK_SUPER_L || keysym == XK_SUPER_R {
            self.modifiers.super_key = is_down;
        } else if keysym == XK_CAPS_LOCK {
            if is_down {
                self.modifiers.caps_lock = !self.modifiers.caps_lock;
            }
        }
    }

    /// The settings' input method, orthography, spelling check and macro
    /// switch go to the engine.
    #[verifier::spinoff_prover]
    #[verifier::rlimit(100)]
    fn apply_settings(&mut self)
        requires old(self).wf(),
        ensures
            final(self).wf(),
            final(self).engine == old(self).engine.spec_with_cfg(
                spec_engine_cfg(old(self).config_mgr.current, old(self).engine.spec_cfg())),
            final(self).engine.spec_cfg() == spec_engine_cfg(old(self).config_mgr.current, old(self).engine.spec_cfg()),
            final(self).engine.spec_len() == old(self).engine.spec_len(),
            final(self).engine.spec_state() == old(self).engine.spec_state(),
            final(self).modifiers == old(self).modifiers,
            final(self).config_mgr == old(self).config_mgr,
            final(self).injector == old(self).injector,
    {
        let cur = self.config_mgr.current;
        let cfg = EngineConfig {
            input_type: cur.input_type,
            use_modern_orthography: cur.modern,
            check_spelling: cur.spelling,
            use_macro: cur.use_macro,
            ..self.engine.config()
        };
        self.engine.set_cfg(cfg);
    }

    /// The engine handles the press of `logical_key` (a capital when `caps`);
    /// when it edits the text, the edit is prepared and returned.
    #[verifier::spinoff_prover]
    fn engine_key(&mut self, logical_key: u16, caps: bool) -> (r: Option<&EditCommand>)
        requires old(self).wf(),
        ensures
            final(self).wf(),
            final(self).modifiers == old(self).modifiers,
            final(self).config_mgr == old(self).config_mgr,
            old(self).engine.spec_cfg().same_except_spelling(final(self).engine.spec_cfg()),
            old(self).engine.spec_key_handled(&final(self).engine, KeyEvent::Keyboard,
                KeyEventState::KeyDown, logical_key, if caps { 1u8 } else { 0u8 }, false),
            r is Some <==> spec_edits_text(final(self).engine.spec_state().code),
            r matches Some(cmd) ==> {
                &&& *cmd == final(self).injector.current_command
                &&& cmd.backspace_count == final(self).engine.spec_state().backspace_count
                &&& cmd.chars@ == spec_typed_order(
                    spec_formatted(final(self).engine.spec_state().char_data@),
                    final(self).engine.spec_state().new_char_count as int,
                )
            },
    {
        let caps_status: u8 = if caps { 1 } else { 0 };
        let hook_state = self.engine.handle_key(
            KeyEvent::Keyboard,
            KeyEventState::KeyDown,
            logical_key,
            caps_status,
            false,
        );
        let code = hook_state.code;
        if code == HookCode::WillProcess || code == HookCode::Restore
            || code == HookCode::ReplaceMacro || code == HookCode::RestoreAndStartNewSession {
            let bs_count = hook_state.backspace_count as usize;
            let new_count = hook_state.new_char_count as usize;
            let mut formatted: Vec<u32> = Vec::new();
            let mut i: usize = 0;
            while i < new_count && i < 32
                invariant
                    i <= 32,
                    hook_state.char_data@.len() == 32,
                    formatted@ == spec_formatted(hook_state.char_data@).subrange(0, i as int),
                decreases 32 - i,
            {
                formatted.push(format_char_code(hook_state.char_data[i]));
                assert(spec_formatted(hook_state.char_data@).subrange(0, i + 1)
                    =~= spec_formatted(hook_state.char_data@).subrange(0, i as int)
                        .push(spec_format_char_code(hook_state.char_data@[i as int])));
                i = i + 1;
            }
            proof {
                let f = spec_formatted(hook_state.char_data@);
                assert(spec_typed_order(formatted@, new_count as int)
                    =~= spec_typed_order(f, new_count as int));
            }
            let cmd = self.injector.prepare(bs_count, formatted.as_slice(), new_count);
            Some(cmd)
        } else {
            None
        }
    }

    /// Handles one key event once the settings are current. The modifiers
    /// follow the key; the hotkey switches the engine on or off (the caller
    /// saves the settings then); a key release, or any key while the engine is
    /// off or Ctrl, Alt or Super is held, passes through, the latter resetting
    /// the engine. Any other mapped key goes to the engine with the settings
    /// applied, and the edit it asks for is returned.
    #[verifier::spinoff_prover]
    #[verifier::rlimit(100)]
    pub fn process_key(&mut self, keysym: u32, is_down: bool) -> (r: Option<&EditCommand>)
        requires old(self).wf(),
        ensures
            final(self).wf(),
            final(self).modifiers == spec_update_modifiers(old(self).modifiers, keysym, is_down),
            final(self).config_mgr.path == old(self).config_mgr.path,
            final(self).config_mgr.last_modified == old(self).config_mgr.last_modified,
            final(self).config_mgr.last_check == old(self).config_mgr.last_check,
            // the hotkey switches the engine on or off and is swallowed
            spec_is_toggle_hotkey(final(self).modifiers, keysym, is_down) ==> {
                &&& r is None
                &&& final(self).config_mgr.current == (AppConfig {
                    enabled: !old(self).config_mgr.current.enabled,
                    ..old(self).config_mgr.current
                })
                &&& final(self).engine == old(self).engine
            },
            !spec_is_toggle_hotkey(final(self).modifiers, keysym, is_down)
                ==> final(self).config_mgr.current == old(self).config_mgr.current,
            // key releases pass through
            !is_down ==> r is None && final(self).engine == old(self).engine,
            // off, or a shortcut modifier held: the key passes and the engine restarts
            is_down && !spec_is_toggle_hotkey(final(self).modifiers, keysym, is_down)
                && (!old(self).config_mgr.current.enabled || final(self).modifiers.has_control())
                ==> {
                &&& r is None
                &&& final(self).engine.spec_len() == 0
                &&& final(self).engine.spec_state().is_initial()
                &&& final(self).engine.spec_cfg() == old(self).engine.spec_cfg()
            },
            // otherwise the settings go to the engine, and a mapped key is handled
            is_down && !spec_is_toggle_hotkey(final(self).modifiers, keysym, is_down)
                && old(self).config_mgr.current.enabled && !final(self).modifiers.has_control()
                ==> {
                &&& final(self).engine.spec_cfg().input_type == old(self).config_mgr.current.input_type
                &&& final(self).engine.spec_cfg().use_modern_orthography == old(self).config_mgr.current.modern
                &&& final(self).engine.spec_cfg().use_macro == old(self).config_mgr.current.use_macro
                &&& (spec_keysym_to_logical_key(keysym) is None ==> {
                    &&& r is None
                    &&& final(self).engine.spec_cfg().check_spelling == old(self).config_mgr.current.spelling
                    &&& final(self).engine.spec_len() == old(self).engine.spec_len()
                    &&& final(self).engine.spec_state() == old(self).engine.spec_state()
                })
                &&& (spec_keysym_to_logical_key(keysym) is Some ==> {
                    // the engine handles the mapped key press with the caps state of the modifiers
                    &&& old(self).engine.spec_with_cfg(spec_engine_cfg(old(self).config_mgr.current,
                        old(self).engine.spec_cfg())).spec_key_handled(&final(self).engine, KeyEvent::Keyboard,
                        KeyEventState::KeyDown, spec_keysym_to_logical_key(keysym)->0,
                        if final(self).modifiers.shift != final(self).modifiers.caps_lock { 1u8 } else { 0u8 }, false)
                    &&& (r is Some <==> spec_edits_text(final(self).engine.spec_state().code))
                    &&& (r matches Some(cmd) ==> {
                        &&& *cmd == final(self).injector.current_command
                        &&& cmd.backspace_count == final(self).engine.spec_state().backspace_count
                        &&& cmd.chars@ == spec_typed_order(
                            spec_formatted(final(self).engine.spec_state().char_data@),
                            final(self).engine.spec_state().new_char_count as int,
                        )
                    })
                })
            },
    {
        self.update_modifiers(keysym, is_down);

        if is_down {
            let is_ctrl_space = self.modifiers.ctrl && keysym == XK_SPACE;
            let is_alt_z = self.modifiers.alt && (keysym == 0x007A || keysym == 0x005A);
            if is_ctrl_space || is_alt_z {
                self.config_mgr.current.enabled = !self.config_mgr.current.enabled;
                return None;
            }
        }

        if !is_down {
            return None;
        }

        if !self.config_mgr.current.enabled || self.modifiers.has_control_modifier() {
            self.engine.reset();
            return None;
        }

        self.apply_settings();

        match keysym_to_logical_key(keysym) {
            Some(logical_key) => {
                let caps = self.modifiers.is_caps();
                self.engine_key(logical_key, caps)
            },
            None => None,
        }
    }
}

} // verus!
