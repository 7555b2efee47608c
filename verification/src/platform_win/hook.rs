//! The Windows keyboard hook's handling of each key: modifier tracking, the
//! on/off hotkey, passing keys through, and the edit that replaces a key.

use vstd::prelude::*;
use crate::app_config::{spec_engine_cfg, AppConfig};
use crate::datatype::{HookCode, KeyEvent, KeyEventState};
use crate::engine::{Engine, EngineConfig};
use crate::platform_linux::injector::{generate_edit_command, spec_typed_order};
use crate::platform_win::config::ConfigManager;
use crate::platform_win::vk_map::{
    spec_vk_to_logical_key, vk_to_logical_key, ModifierState, VK_CONTROL, VK_LCONTROL, VK_LSHIFT,
    VK_MENU, VK_RCONTROL, VK_RSHIFT, VK_SHIFT, VK_SPACE,
};

verus! {

/// What the hook does with a key event.
#[derive(Debug, Clone, PartialEq, Eq)]
pub enum HookAction {
    /// The key goes on to the focused window.
    PassThrough,
    /// The on/off hotkey: the key is swallowed and the settings are to be saved.
    Toggled,
    /// The key is swallowed; in its place `backspace_count` backspaces and then
    /// the code points `chars` are sent.
    Replace { backspace_count: usize, chars: Vec<u32> },
}

/// The modifiers after a key event: Shift, Ctrl, Alt and Win follow their keys.
pub open spec fn spec_sync_modifiers(m: ModifierState, vk: u32, is_key_down: bool) -> ModifierState {
    if vk == VK_SHIFT || vk == VK_LSHIFT || vk == VK_RSHIFT {
        ModifierState { shift: is_key_down, ..m }
    } else if vk == VK_CONTROL || vk == VK_LCONTROL || vk == VK_RCONTROL {
        ModifierState { ctrl: is_key_down, ..m }
    } else if vk == VK_MENU {
        ModifierState { alt: is_key_down, ..m }
    } else if vk == 0x5B || vk == 0x5C {
        ModifierState { win: is_key_down, ..m }
    } else {
        m
    }
}

/// The on/off hotkey: Ctrl+Space or Alt+Z, on key down.
pub open spec fn spec_is_hotkey(m: ModifierState, vk: u32, is_key_down: bool) -> bool {
    is_key_down && ((m.ctrl && vk == VK_SPACE) || (m.alt && vk == 0x5A))
}

/// Engine results that replace text on screen.
pub open spec fn spec_replaces_text(code: HookCode) -> bool {
    code == HookCode::WillProcess || code == HookCode::Restore || code == HookCode::ReplaceMacro
        || code == HookCode::RestoreAndStartNewSession
}

/// The hook's state: the engine, the settings, the modifiers held and when
/// the settings file was last looked at.
pub struct KeyboardHook {
    pub engine: Engine,
    pub config_mgr: ConfigManager,
    pub modifiers: ModifierState,
    /// When the settings file was last looked at, in milliseconds.
    pub last_config_check: u64,
}

impl KeyboardHook {
    /// The hook's invariant is the engine's.
    pub open spec fn wf(&self) -> bool {
        self.engine.wf()
    }

    /// A hook over the settings `config_mgr`, started at time `now_ms`.
    pub fn new(config_mgr: ConfigManager, now_ms: u64) -> (r: Self)
        ensures
            r.wf(),
            r.engine.spec_len() == 0,
            r.engine.spec_state().is_initial(),
            r.config_mgr == config_mgr,
            r.modifiers == ModifierState::default_state(),
            r.last_config_check == now_ms,
    {
        KeyboardHook {
            engine: Engine::default(),
            config_mgr,
            modifiers: ModifierState::default(),
            last_config_check: now_ms,
        }
    }

    /// Whether the settings file is to be looked at, at time `now_ms`: once at
    /// least a second has passed since the last look, which then becomes `now_ms`.
    pub fn config_check_due(&mut self, now_ms: u64) -> (r: bool)
        ensures
            r == (now_ms >= old(self).last_config_check && now_ms - old(self).last_config_check >= 1000),
            final(self).last_config_check == (if r { now_ms } else { old(self).last_config_check }),
            final(self).engine == old(self).engine,
            final(self).config_mgr == old(self).config_mgr,
            final(self).modifiers == old(self).modifiers,
    {
        if now_ms >= self.last_config_check && now_ms - self.last_config_check >= 1000 {
            self.last_config_check = now_ms;
            true
        } else {
            false
        }
    }

    /// Tracks the modifiers through a key event (see `spec_sync_modifiers`).
    fn sync_modifiers(&mut self, vk: u32, is_key_down: bool)
        ensures
            final(self).modifiers == spec_sync_modifiers(old(self).modifiers, vk, is_key_down),
            final(self).engine == old(self).engine,
            final(self).config_mgr == old(self).config_mgr,
            final(self).last_config_check == old(self).last_config_check,
    {
        if vk == VK_SHIFT || vk == VK_LSHIFT || vk == VK_RSHIFT {
            self.modifiers.shift = is_key_down;
        } else if vk == VK_CONTROL || vk == VK_LCONTROL || vk == VK_RCONTROL {
            self.modifiers.ctrl = is_key_down;
        } else if vk == VK_MENU {
            self.modifiers.alt = is_key_down;
        } else if vk == 0x5B || vk == 0x5C {
            self.modifiers.win = is_key_down;
        }
    }

    /// The settings' input method, orthography, spelling check and macro
    /// switch go to the engine.
    #[verifier::spinoff_prover]
    #[verifier::rlimit(100)]
    fn apply_settings(&mut self)
        requires old(self).wf(),
        ensures
            final(self).wf(),
            final(self).engine == old(self).engine.spec_with_cfg(
                spec_engine_cfg(old(self).config_mgr.current, old(self).engine.spec_cfg())),
            final(self).engine.spec_cfg() == spec_engine_cfg(old(self).config_mgr.current, old(self).engine.spec_cfg()),
            final(self).engine.spec_len() == old(self).engine.spec_len(),
            final(self).engine.spec_state() == old(self).engine.spec_state(),
            final(self).modifiers == old(self).modifiers,
            final(self).config_mgr == old(self).config_mgr,
            final(self).last_config_check == old(self).last_config_check,
    {
        let cur = self.config_mgr.current;
        let cfg = EngineConfig {
            input_type: cur.input_type,
            use_modern_orthography: cur.modern,
            check_spelling: cur.spelling,
            use_macro: cur.use_macro,
            ..self.engine.config()
        };
        self.engine.set_cfg(cfg);
    }

    /// The engine handles the press of `logical_key` (a capital when `caps`);
    /// when it edits the text, the key is replaced by that edit.
    #[verifier::spinoff_prover]
    fn engine_key(&mut self, logical_key: u16, caps: bool) -> (r: HookAction)
        requires old(self).wf(),
        ensures
            final(self).wf(),
            final(self).modifiers == old(self).modifiers,
            final(self).last_config_check == old(self).last_config_check,
            final(self).config_mgr == old(self).config_mgr,
            old(self).engine.spec_cfg().same_except_spelling(final(self).engine.spec_cfg()),
            old(self).engine.spec_key_handled(&final(self).engine, KeyEvent::Keyboard,
                KeyEventState::KeyDown, logical_key, if caps { 1u8 } else { 0u8 }, false),
            r is Replace <==> spec_replaces_text(final(self).engine.spec_state().code),
            r is PassThrough <==> !spec_replaces_text(final(self).engine.spec_state().code),
            r matches HookAction::Replace { backspace_count, chars } ==> {
                &&& backspace_count == final(self).engine.spec_state().backspace_count
                &&& chars@ == spec_typed_order(
                    final(self).engine.spec_state().char_data@,
                    final(self).engine.spec_state().new_char_count as int,
                )
            },
    {
        let caps_status: u8 = if caps { 1 } else { 0 };
        let hook_state = self.engine.handle_key(
            KeyEvent::Keyboard,
            KeyEventState::KeyDown,
            logical_key,
            caps_status,
            false,
        );
        let code = hook_state.code;
        if code == HookCode::WillProcess || code == HookCode::Restore
            || code == HookCode::ReplaceMacro || code == HookCode::RestoreAndStartNewSession {
            let new_count = hook_state.new_char_count as usize;
            let cmd = generate_edit_command(
                hook_state.backspace_count as usize,
                hook_state.char_data.as_slice(),
                new_count,
            );
            HookAction::Replace { backspace_count: cmd.backspace_count, chars: cmd.chars }
        } else {
            HookAction::PassThrough
        }
    }

    /// Handles one key event of virtual-key code `vk`, once the settings are
    /// current. `caps` tells whether Shift and Caps Lock, as the system reports
    /// them, make a capital letter. The modifiers follow the key; the hotkey
    /// switches the engine on or off; while the engine is off or Ctrl, Alt or
    /// Win is held, keys pass and a key press resets the engine. Otherwise the
    /// settings go to the engine and a mapped key press is handled: when the
    /// engine edits the text, the key is replaced by that edit.
    #[verifier::spinoff_prover]
    #[verifier::rlimit(100)]
    pub fn handle_key_event(&mut self, vk: u32, is_key_down: bool, caps: bool) -> (r: HookAction)
        requires old(self).wf(),
        ensures
            final(self).wf(),
            final(self).modifiers == spec_sync_modifiers(old(self).modifiers, vk, is_key_down),
            final(self).last_config_check == old(self).last_config_check,
            final(self).config_mgr.path == old(self).config_mgr.path,
            final(self).config_mgr.last_modified == old(self).config_mgr.last_modified,
            spec_is_hotkey(final(self).modifiers, vk, is_key_down) ==> {
                &&& r == HookAction::Toggled
                &&& final(self).config_mgr.current == (AppConfig {
                    enabled: !old(self).config_mgr.current.enabled,
                    ..old(self).config_mgr.current
                })
                &&& final(self).engine == old(self).engine
            },
            !spec_is_hotkey(final(self).modifiers, vk, is_key_down)
                ==> final(self).config_mgr.current == old(self).config_mgr.current,
            !spec_is_hotkey(final(self).modifiers, vk, is_key_down)
                && (!old(self).config_mgr.current.enabled || final(self).modifiers.has_control())
                ==> {
                &&& r == HookAction::PassThrough
                &&& is_key_down ==> final(self).engine.spec_len() == 0
                    && final(self).engine.spec_state().is_initial()
                    && final(self).engine.spec_cfg() == old(self).engine.spec_cfg()
                &&& !is_key_down ==> final(self).engine == old(self).engine
            },
            !spec_is_hotkey(final(self).modifiers, vk, is_key_down)
                && old(self).config_mgr.current.enabled && !final(self).modifiers.has_control()
                ==> {
                &&& final(self).engine.spec_cfg().input_type == old(self).config_mgr.current.input_type
                &&& final(self).engine.spec_cfg().use_modern_orthography == old(self).config_mgr.current.modern
                &&& final(self).engine.spec_cfg().use_macro == old(self).config_mgr.current.use_macro
                &&& (!is_key_down || spec_vk_to_logical_key(vk) is None) ==> {
                    &&& r == HookAction::PassThrough
                    &&& final(self).engine.spec_cfg().check_spelling == old(self).config_mgr.current.spelling
                    &&& final(self).engine.spec_len() == old(self).engine.spec_len()
                    &&& final(self).engine.spec_state() == old(self).engine.spec_state()
                }
                &&& (is_key_down && spec_vk_to_logical_key(vk) is Some) ==> {
                    // the engine handles the mapped key press with the caps state given
                    &&& old(self).engine.spec_with_cfg(spec_engine_cfg(old(self).config_mgr.current,
                        old(self).engine.spec_cfg())).spec_key_handled(&final(self).engine, KeyEvent::Keyboard,
                        KeyEventState::KeyDown, spec_vk_to_logical_key(vk)->0, if caps { 1u8 } else { 0u8 }, false)
                    &&& (r is Replace <==> spec_replaces_text(final(self).engine.spec_state().code))
                    &&& (r is PassThrough <==> !spec_replaces_text(final(self).engine.spec_state().code))
                    &&& (r matches HookAction::Replace { backspace_count, chars } ==> {
                        &&& backspace_count == final(self).engine.spec_state().backspace_count
                        &&& chars@ == spec_typed_order(
                            final(self).engine.spec_state().char_data@,
                            final(self).engine.spec_state().new_char_count as int,
                        )
                    })
                }
            },
    {
        self.sync_modifiers(vk, is_key_down);

        if is_key_down && ((self.modifiers.ctrl && vk == VK_SPACE) || (self.modifiers.alt && vk == 0x5A)) {
            self.config_mgr.current.enabled = !self.config_mgr.current.enabled;
            return HookAction::Toggled;
        }

        if !self.config_mgr.current.enabled || self.modifiers.has_control_modifier() {
            if is_key_down {
                self.engine.reset();
            }
            return HookAction::PassThrough;
        }

        self.apply_settings();

        if !is_key_down {
            return HookAction::PassThrough;
        }
        match vk_to_logical_key(vk) {
            Some(logical_key) => self.engine_key(logical_key, caps),
            None => HookAction::PassThrough,
        }
    }
}

} // verus!
