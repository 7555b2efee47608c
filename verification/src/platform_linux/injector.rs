//! The edit that the daemon sends to the focused window: a number of
//! backspaces, then characters.

use vstd::prelude::*;
use vstd::utf8::is_scalar;
use crate::text::{char_from_u32, chars_to_string};

verus! {

/// Edit instruction for the input target: erase `backspace_count` characters,
/// then type the code points `chars`.
#[derive(Debug, Clone, PartialEq, Eq)]
pub struct EditCommand {
    pub backspace_count: usize,
    pub chars: Vec<u32>,
}

impl Default for EditCommand {
    fn default() -> (r: Self)
        ensures
            r.backspace_count == 0,
            r.chars@ == Seq::<u32>::empty(),
    {
        EditCommand { backspace_count: 0, chars: Vec::new() }
    }
}

/// The text of the code points `codes`: those that are no Unicode scalar value are skipped.
pub open spec fn spec_code_text(codes: Seq<u32>) -> Seq<char>
    decreases codes.len(),
{
    if codes.len() == 0 {
        Seq::empty()
    } else if is_scalar(codes.last()) {
        spec_code_text(codes.drop_last()).push(codes.last() as char)
    } else {
        spec_code_text(codes.drop_last())
    }
}

/// The first `count` entries of `raw` (as far as `raw` reaches), last first:
/// the engine keeps its output characters in reverse typing order.
pub open spec fn spec_typed_order(raw: Seq<u32>, count: int) -> Seq<u32> {
    let m = if count < raw.len() { count } else { raw.len() as int };
    Seq::new(m as nat, |j: int| raw[m - 1 - j])
}

impl EditCommand {
    /// Resets the command for reuse.
    pub fn clear(&mut self)
        ensures
            final(self).backspace_count == 0,
            final(self).chars@ == Seq::<u32>::empty(),
    {
        self.backspace_count = 0;
        self.chars.clear();
    }

    /// The characters to type, as text.
    pub fn to_string(&self) -> (r: String)
        ensures r@ == spec_code_text(self.chars@),
    {
        let mut v: Vec<char> = Vec::new();
        let mut i: usize = 0;
        while i < self.chars.len()
            invariant
                i <= self.chars.len(),
                v@ == spec_code_text(self.chars@.subrange(0, i as int)),
            decreases self.chars.len() - i,
        {
            let code = self.chars[i];
            proof {
                let next = self.chars@.subrange(0, i + 1);
                assert(next.drop_last() =~= self.chars@.subrange(0, i as int));
                assert(next.last() == code);
            }
            match char_from_u32(code) {
                Some(c) => {
                    v.push(c);
                },
                None => {},
            }
            i = i + 1;
        }
        assert(self.chars@.subrange(0, self.chars.len() as int) =~= self.chars@);
        chars_to_string(&v)
    }
}

/// Appends the first `char_count` entries of `raw_chars` to `chars`, last first.
fn push_typed_order(chars: &mut Vec<u32>, raw_chars: &[u32], char_count: usize)
    ensures final(chars)@ == old(chars)@ + spec_typed_order(raw_chars@, char_count as int),
{
    let m: usize = if char_count < raw_chars.len() { char_count } else { raw_chars.len() };
    let ghost base = chars@;
    let mut k: usize = m;
    while k > 0
        invariant
            k <= m,
            m <= raw_chars@.len(),
            m as int == (if (char_count as int) < raw_chars@.len() { char_count as int } else { raw_chars@.len() as int }),
            chars@ == base + spec_typed_order(raw_chars@, char_count as int).subrange(0, (m - k) as int),
        decreases k,
    {
        k = k - 1;
        chars.push(raw_chars[k]);
        proof {
            let t = spec_typed_order(raw_chars@, char_count as int);
            assert(t[(m - k - 1) as int] == raw_chars@[k as int]);
            assert(t.subrange(0, (m - k) as int) =~= t.subrange(0, (m - k - 1) as int).push(raw_chars@[k as int]));
        }
    }
    assert(spec_typed_order(raw_chars@, char_count as int).subrange(0, m as int)
        =~= spec_typed_order(raw_chars@, char_count as int));
}

/// The edit command for `backspace_count` backspaces and the first `char_count`
/// engine output entries of `raw_chars`, turned into typing order.
pub fn generate_edit_command(backspace_count: usize, raw_chars: &[u32], char_count: usize) -> (r: EditCommand)
    ensures
        r.backspace_count == backspace_count,
        r.chars@ == spec_typed_order(raw_chars@, char_count as int),
{
    let mut cmd = EditCommand { backspace_count, chars: Vec::new() };
    push_typed_order(&mut cmd.chars, raw_chars, char_count);
    assert(cmd.chars@ =~= spec_typed_order(raw_chars@, char_count as int));
    cmd
}

/// Holds one edit command that each key event fills anew.
#[derive(Debug)]
pub struct BufferInjector {
    pub current_command: EditCommand,
}

impl Default for BufferInjector {
    fn default() -> (r: Self)
        ensures
            r.current_command.backspace_count == 0,
            r.current_command.chars@ == Seq::<u32>::empty(),
    {
        BufferInjector::new()
    }
}

impl BufferInjector {
    /// An injector holding an empty command.
    pub fn new() -> (r: Self)
        ensures
            r.current_command.backspace_count == 0,
            r.current_command.chars@ == Seq::<u32>::empty(),
    {
        BufferInjector { current_command: EditCommand::default() }
    }

    /// Fills the held command as `generate_edit_command` builds one, and returns it.
    pub fn prepare(&mut self, backspace_count: usize, raw_chars: &[u32], char_count: usize) -> (r: &EditCommand)
        ensures
            final(self).current_command.backspace_count == backspace_count,
            final(self).current_command.chars@ == spec_typed_order(raw_chars@, char_count as int),
            *r == final(self).current_command,
    {
        self.current_command.clear();
        self.current_command.backspace_count = backspace_count;
        push_typed_order(&mut self.current_command.chars, raw_chars, char_count);
        assert(self.current_command.chars@ =~= spec_typed_order(raw_chars@, char_count as int));
        &self.current_command
    }
}

} // verus!
