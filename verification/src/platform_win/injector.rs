//! The keystrokes that carry out an edit on Windows: backspaces, then each
//! character typed as its UTF-16 code units.

use vstd::prelude::*;
use vstd::utf8::is_scalar;

verus! {

/// `KEYEVENTF_KEYUP`: the key is released.
pub const KEYEVENTF_KEYUP: u32 = 0x0002;
/// `KEYEVENTF_UNICODE`: the keystroke types the UTF-16 code unit in `scan`.
pub const KEYEVENTF_UNICODE: u32 = 0x0004;
/// `KEYEVENTF_UNICODE | KEYEVENTF_KEYUP`.
pub const KEYEVENTF_UNICODE_UP: u32 = 0x0006;
/// The backspace key's virtual-key code.
pub const VK_BACK_KEY: u16 = 0x08;

/// One synthesized keyboard event: a virtual key, or a code unit in `scan`.
#[derive(Debug, Clone, Copy, PartialEq, Eq, Structural)]
pub struct Keystroke {
    pub vk: u16,
    pub scan: u16,
    pub flags: u32,
}

/// The UTF-16 code units of the code point `c`: one below 0x10000, else a
/// high and a low surrogate.
pub open spec fn spec_utf16_units(c: u32) -> Seq<u16> {
    if c < 0x10000 {
        seq![c as u16]
    } else {
        let d = c - 0x10000;
        seq![(0xD800 + d / 1024) as u16, (0xDC00 + d % 1024) as u16]
    }
}

/// Press and release of the backspace key.
pub open spec fn spec_backspace_stroke(i: int) -> Keystroke {
    if i % 2 == 0 {
        Keystroke { vk: VK_BACK_KEY, scan: 0, flags: 0 }
    } else {
        Keystroke { vk: VK_BACK_KEY, scan: 0, flags: KEYEVENTF_KEYUP }
    }
}

/// Press and release of the backspace key, `n` times.
pub open spec fn spec_backspace_strokes(n: nat) -> Seq<Keystroke> {
    Seq::new(2 * n, |i: int| spec_backspace_stroke(i))
}

/// Press (even `i`) or release (odd `i`) typing the code unit `u`.
pub open spec fn spec_unit_stroke(u: u16, i: int) -> Keystroke {
    if i % 2 == 0 {
        Keystroke { vk: 0, scan: u, flags: KEYEVENTF_UNICODE }
    } else {
        Keystroke { vk: 0, scan: u, flags: KEYEVENTF_UNICODE_UP }
    }
}

/// Press and release typing each code unit of `units`.
pub open spec fn spec_unit_strokes(units: Seq<u16>) -> Seq<Keystroke> {
    Seq::new(2 * units.len(), |i: int| spec_unit_stroke(units[i / 2], i))
}

/// The keystrokes that type `chars`: 0 and what is no Unicode scalar value are skipped.
pub open spec fn spec_char_strokes(chars: Seq<u32>) -> Seq<Keystroke>
    decreases chars.len(),
{
    if chars.len() == 0 {
        Seq::empty()
    } else if chars.last() != 0 && is_scalar(chars.last()) {
        spec_char_strokes(chars.drop_last()) + spec_unit_strokes(spec_utf16_units(chars.last()))
    } else {
        spec_char_strokes(chars.drop_last())
    }
}

/// The keystrokes of an edit: the backspaces, then the characters.
pub open spec fn spec_edit_keystrokes(backspace_count: nat, chars: Seq<u32>) -> Seq<Keystroke> {
    spec_backspace_strokes(backspace_count) + spec_char_strokes(chars)
}

fn push_unit(out: &mut Vec<Keystroke>, u: u16)
    ensures final(out)@ == old(out)@ + spec_unit_strokes(seq![u]),
{
    out.push(Keystroke { vk: 0, scan: u, flags: KEYEVENTF_UNICODE });
    out.push(Keystroke { vk: 0, scan: u, flags: KEYEVENTF_UNICODE_UP });
    proof {
        assert(spec_unit_strokes(seq![u]) =~= seq![
            Keystroke { vk: 0, scan: u, flags: KEYEVENTF_UNICODE },
            Keystroke { vk: 0, scan: u, flags: KEYEVENTF_UNICODE_UP },
        ]);
    }
}

/// The keystrokes that carry out an edit: `backspace_count` backspaces, then
/// each character of `chars` typed as its UTF-16 code units.
pub fn edit_keystrokes(backspace_count: usize, chars: &[u32]) -> (r: Vec<Keystroke>)
    requires 2 * backspace_count + 4 * chars@.len() <= usize::MAX,
    ensures r@ == spec_edit_keystrokes(backspace_count as nat, chars@),
{
    let mut out: Vec<Keystroke> = Vec::new();
    let mut i: usize = 0;
    while i < backspace_count
        invariant
            i <= backspace_count,
            out@ =~= spec_backspace_strokes(i as nat),
        decreases backspace_count - i,
    {
        out.push(Keystroke { vk: VK_BACK_KEY, scan: 0, flags: 0 });
        out.push(Keystroke { vk: VK_BACK_KEY, scan: 0, flags: KEYEVENTF_KEYUP });
        proof {
            assert(out@ =~= spec_backspace_strokes((i + 1) as nat)) by {
                assert forall|k: int| 0 <= k < out@.len() implies out@[k] == spec_backspace_stroke(k) by {
                    if k >= 2 * i {
                        assert(k == 2 * i || k == 2 * i + 1);
                    }
                }
            }
        }
        i = i + 1;
    }
    let ghost base = out@;
    let mut j: usize = 0;
    while j < chars.len()
        invariant
            j <= chars@.len(),
            out@ == base + spec_char_strokes(chars@.subrange(0, j as int)),
        decreases chars.len() - j,
    {
        let code = chars[j];
        let ghost pre = chars@.subrange(0, j as int);
        proof {
            let next = chars@.subrange(0, j + 1);
            assert(next.drop_last() =~= pre);
            assert(next.last() == code);
        }
        if code != 0 && (code < 0xD800 || (0xE000 <= code && code <= 0x10FFFF)) {
            proof {
                assert(is_scalar(code));
            }
            if code < 0x10000 {
                push_unit(&mut out, code as u16);
                proof {
                    assert(spec_utf16_units(code) =~= seq![code as u16]);
                }
            } else {
                let d = code - 0x10000;
                let hi = (0xD800 + d / 1024) as u16;
                let lo = (0xDC00 + d % 1024) as u16;
                push_unit(&mut out, hi);
                push_unit(&mut out, lo);
                proof {
                    let units = spec_utf16_units(code);
                    assert(units =~= seq![hi, lo]);
                    assert(spec_unit_strokes(units) =~= spec_unit_strokes(seq![hi]) + spec_unit_strokes(seq![lo]));
                }
            }
        } else {
            proof {
                assert(!(code != 0 && is_scalar(code)));
            }
        }
        j = j + 1;
    }
    assert(chars@.subrange(0, chars@.len() as int) =~= chars@);
    out
}

} // verus!
