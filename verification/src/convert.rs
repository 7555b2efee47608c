//! Text conversion between Vietnamese code tables, with case changes and
//! mark removal.

use vstd::prelude::*;
use vstd::utf8::is_scalar;
use crate::datatype::{TONEW_MASK, TONE_MASK};
use crate::text::{char_from_u32, chars_to_string, str_to_chars};
use crate::vietnamese::{
    code_table, code_table_keys, key_code_to_character, opt_seq, spec_code_table,
    spec_code_table_keys, spec_key_code_to_character, spec_unicode_compound_mark, unicode_compound_mark,
};

verus! {

/// Options controlling conversion behavior.
#[derive(Clone, Debug)]
pub struct ConvertOptions {
    /// Source code table (0..4).
    pub from_code: u8,
    /// Target code table (0..4).
    pub to_code: u8,
    /// Convert output to ALL CAPS.
    pub to_all_caps: bool,
    /// Convert output to all lowercase.
    pub to_all_non_caps: bool,
    /// Capitalize first letter of sentence.
    pub to_caps_first_letter: bool,
    /// Capitalize each word.
    pub to_caps_each_word: bool,
    /// Strip tone and circumflex/breve marks.
    pub remove_mark: bool,
}

impl Default for ConvertOptions {
    fn default() -> (r: Self)
        ensures
            r.from_code == 0,
            r.to_code == 0,
            !r.to_all_caps,
            !r.to_all_non_caps,
            !r.to_caps_first_letter,
            !r.to_caps_each_word,
            !r.remove_mark,
    {
        ConvertOptions {
            from_code: 0,
            to_code: 0,
            to_all_caps: false,
            to_all_non_caps: false,
            to_caps_first_letter: false,
            to_caps_each_word: false,
            remove_mark: false,
        }
    }
}

/// Length of the row of code table `table` for the key at position `ki` (0 when none).
pub open spec fn spec_table_row_len(table: int, ki: int) -> int {
    match spec_code_table(table, spec_code_table_keys()[ki]) {
        Some(r) => r.len() as int,
        None => 0,
    }
}

/// The first (key, column) of code table `table`, scanning the keys in order
/// from `ki` and the row from `col`, whose character is `c`.
pub open spec fn spec_find_key_code(c: u16, table: int, ki: int, col: int) -> Option<(u32, int)>
    decreases 13 - ki, spec_table_row_len(table, ki) - col,
{
    if ki < 0 || ki >= 13 || col < 0 {
        None
    } else if col >= spec_table_row_len(table, ki) {
        spec_find_key_code(c, table, ki + 1, 0)
    } else if spec_code_table(table, spec_code_table_keys()[ki])->0[col] == c {
        Some((spec_code_table_keys()[ki], col))
    } else {
        spec_find_key_code(c, table, ki, col + 1)
    }
}

/// Finds the key and column of a character in code table `table`.
fn find_key_code(c: u16, table: usize) -> (r: Option<(u32, usize)>)
    ensures
        r matches Some(p) ==> spec_find_key_code(c, table as int, 0, 0) == Some((p.0, p.1 as int)),
        r is None ==> spec_find_key_code(c, table as int, 0, 0) is None,
{
    let keys = code_table_keys();
    let mut ki: usize = 0;
    while ki < keys.len()
        invariant
            ki <= keys@.len(),
            keys@ == spec_code_table_keys(),
            keys@.len() == 13,
            spec_find_key_code(c, table as int, ki as int, 0) == spec_find_key_code(c, table as int, 0, 0),
        decreases keys.len() - ki,
    {
        match code_table(table, keys[ki]) {
            Some(row) => {
                let mut col: usize = 0;
                while col < row.len()
                    invariant
                        col <= row@.len(),
                        ki < 13,
                        keys@ == spec_code_table_keys(),
                        opt_seq(Some(row)) == spec_code_table(table as int, keys@[ki as int]),
                        spec_find_key_code(c, table as int, ki as int, col as int)
                            == spec_find_key_code(c, table as int, 0, 0),
                    decreases row.len() - col,
                {
                    proof {
                        assert(spec_table_row_len(table as int, ki as int) == row@.len());
                    }
                    if row[col] == c {
                        return Some((keys[ki], col));
                    }
                    col = col + 1;
                }
            },
            None => {},
        }
        ki = ki + 1;
    }
    None
}

/// The compound mark index of a combining mark: its position among the five
/// combining marks plus one, shifted left by 13; 0 for other characters.
pub open spec fn spec_compound_mark_index(mark: u16) -> u16 {
    let m = spec_unicode_compound_mark();
    if mark == m[0] { 1u16 << 13u16 }
    else if mark == m[1] { 2u16 << 13u16 }
    else if mark == m[2] { 3u16 << 13u16 }
    else if mark == m[3] { 4u16 << 13u16 }
    else if mark == m[4] { 5u16 << 13u16 }
    else { 0 }
}

fn get_unicode_compound_mark_index(mark: u16) -> (r: u16)
    ensures r == spec_compound_mark_index(mark),
{
    let m = unicode_compound_mark();
    if mark == m[0] { 1u16 << 13u16 }
    else if mark == m[1] { 2u16 << 13u16 }
    else if mark == m[2] { 3u16 << 13u16 }
    else if mark == m[3] { 4u16 << 13u16 }
    else if mark == m[4] { 5u16 << 13u16 }
    else { 0 }
}

/// ASCII upper case of a byte, as a code.
pub open spec fn spec_upper(b: u8) -> u16 {
    if 97 <= b <= 122 { (b - 32) as u16 } else { b as u16 }
}

/// ASCII lower case of a byte, as a code.
pub open spec fn spec_lower(b: u8) -> u16 {
    if 65 <= b <= 90 { (b + 32) as u16 } else { b as u16 }
}

fn upper(b: u8) -> (r: u16)
    ensures r == spec_upper(b),
{
    if 97 <= b && b <= 122 { (b - 32) as u16 } else { b as u16 }
}

fn lower(b: u8) -> (r: u16)
    ensures r == spec_lower(b),
{
    if 65 <= b && b <= 90 { (b + 32) as u16 } else { b as u16 }
}

/// Entry `k` of the target row of key `j`, or `dflt` when there is none.
pub open spec fn spec_target_at(o: ConvertOptions, j: u32, k: int, dflt: u16) -> u16 {
    match spec_code_table(o.to_code as int, j) {
        Some(row) => if 0 <= k < row.len() { row[k] } else { dflt },
        None => dflt,
    }
}

/// The converted character of the table character at key `j`, column `k`
/// (even columns hold upper-case letters, odd ones lower-case): the same
/// column of the target table, put in upper case under ALL CAPS or where a
/// capital is due, in lower case under all lowercase, and otherwise left in
/// its case; the bare letter when marks are removed.
pub open spec fn spec_convert_target(o: ConvertOptions, su: bool, j: u32, k: int, dflt: u16) -> u16 {
    let t0 = spec_target_at(o, j, k, dflt);
    let t1 = if (o.to_all_caps || su) && k % 2 != 0 {
        spec_target_at(o, j, k - 1, t0)
    } else if o.to_all_non_caps && k % 2 == 0 {
        spec_target_at(o, j, k + 1, t0)
    } else {
        t0
    };
    if o.remove_mark {
        let base = spec_key_code_to_character(j & 0xFF) as u8;
        if o.to_all_caps || (k % 2 == 0 && !o.to_all_non_caps) { spec_upper(base) } else { spec_lower(base) }
    } else {
        t1
    }
}

fn target_at(o: &ConvertOptions, j: u32, k: usize, dflt: u16) -> (r: u16)
    ensures r == spec_target_at(*o, j, k as int, dflt),
{
    match code_table(o.to_code as usize, j) {
        Some(row) => if k < row.len() { row[k] } else { dflt },
        None => dflt,
    }
}

fn convert_target(o: &ConvertOptions, su: bool, j: u32, k: usize, dflt: u16) -> (r: u16)
    ensures r == spec_convert_target(*o, su, j, k as int, dflt),
{
    let t0 = target_at(o, j, k, dflt);
    let t1 = if (o.to_all_caps || su) && k % 2 != 0 {
        target_at(o, j, k - 1, t0)
    } else if o.to_all_non_caps && k % 2 == 0 {
        target_at(o, j, k + 1, t0)
    } else {
        t0
    };
    if o.remove_mark {
        let base = #[verifier::truncate] (key_code_to_character(j & 0xFF) as u8);
        if o.to_all_caps || (k % 2 == 0 && !o.to_all_non_caps) { upper(base) } else { lower(base) }
    } else {
        t1
    }
}

/// A converted two-byte character written out in the target table: VNI and
/// CP 1258 split it into its bytes, Unicode compound into a letter and a combining mark.
pub open spec fn spec_split_target(o: ConvertOptions, target: u16) -> Seq<u16> {
    if o.to_code == 2 || o.to_code == 4 {
        let hi = (target >> 8u16) as u8;
        if hi > 32 { seq![target & 0xFF, hi as u16] } else { seq![target & 0xFF] }
    } else if o.to_code == 3 {
        let mi = target >> 13u16;
        if mi > 0 {
            if mi <= 5 {
                seq![target & 0x1FFF, spec_unicode_compound_mark()[mi - 1]]
            } else {
                seq![target & 0x1FFF]
            }
        } else {
            seq![target]
        }
    } else {
        seq![target]
    }
}

/// Whether a byte is a sentence break ('.', '?', '!').
pub open spec fn spec_is_sentence_break(b: u8) -> bool {
    b == 46 || b == 63 || b == 33
}

/// One step of the conversion at position `i`, with the capitalization state
/// `su` and the sentence-break state `hb`: the codes written, the next
/// position and the next states.
pub open spec fn spec_convert_step(d: Seq<u16>, i: int, su: bool, hb: bool, o: ConvertOptions)
    -> (Seq<u16>, int, bool, bool)
{
    let two = i + 1 < d.len();
    let (t2, p): (u16, int) = if o.from_code == 2 || o.from_code == 4 {
        ((d[i] | (d[i + 1] << 8u16)) as u16, 1)
    } else if o.from_code == 3 {
        let m = spec_compound_mark_index(d[i + 1]);
        if m > 0 { ((d[i] | m) as u16, 1) } else { (d[i], 0) }
    } else {
        (d[i], 0)
    };
    if two && spec_find_key_code(t2, o.from_code as int, 0, 0) is Some {
        let (j, k) = spec_find_key_code(t2, o.from_code as int, 0, 0)->0;
        let target = spec_convert_target(o, su, j, k, d[i + p]);
        (spec_split_target(o, target), i + p + 1, false, false)
    } else if spec_find_key_code(d[i], o.from_code as int, 0, 0) is Some {
        let (j, k) = spec_find_key_code(d[i], o.from_code as int, 0, 0)->0;
        (seq![spec_convert_target(o, su, j, k, d[i])], i + 1, false, false)
    } else {
        let t = d[i];
        let b = t as u8;
        let out = if o.to_all_caps || su { spec_upper(b) } else if o.to_all_non_caps { spec_lower(b) } else { b as u16 };
        let caps_opt = o.to_caps_first_letter || o.to_caps_each_word;
        let (su2, hb2) = if t == 10 || (hb && t == 32) {
            (if caps_opt { true } else { su }, hb)
        } else if t == 32 && o.to_caps_each_word {
            (true, hb)
        } else if spec_is_sentence_break(b) {
            (su, true)
        } else {
            (false, false)
        };
        (seq![out], i + 1, su2, hb2)
    }
}

/// The codes the conversion writes from position `i` on.
pub open spec fn spec_convert_from(d: Seq<u16>, i: int, su: bool, hb: bool, o: ConvertOptions) -> Seq<u16>
    decreases d.len() - i,
{
    if i < 0 || i >= d.len() {
        Seq::empty()
    } else {
        let (piece, ni, su2, hb2) = spec_convert_step(d, i, su, hb, o);
        if ni > i { piece + spec_convert_from(d, ni, su2, hb2, o) } else { piece }
    }
}

/// A letter of a one-code source table (Unicode or TCVN3) converted into a
/// one-code target table (Unicode or TCVN3), with no case or mark option: the
/// letter found at key `j`, column `k` of the source table is written as the
/// entry at the same key and column of the target table, and the conversion
/// goes on with the next code.
pub proof fn lemma_convert_letter_to_target(d: Seq<u16>, i: int, hb: bool, o: ConvertOptions, j: u32, k: int,
    row: Seq<u16>)
    requires
        0 <= i < d.len(),
        o.from_code == 0 || o.from_code == 1,
        o.to_code == 0 || o.to_code == 1,
        !o.to_all_caps,
        !o.to_all_non_caps,
        !o.to_caps_first_letter,
        !o.to_caps_each_word,
        !o.remove_mark,
        spec_find_key_code(d[i], o.from_code as int, 0, 0) == Some((j, k)),
        spec_code_table(o.to_code as int, j) == Some(row),
        0 <= k < row.len(),
    ensures
        spec_convert_step(d, i, false, hb, o) == (seq![row[k]], i + 1, false, false),
        spec_convert_from(d, i, false, hb, o) == seq![row[k]] + spec_convert_from(d, i + 1, false, false, o),
{
    assert(spec_convert_target(o, false, j, k, d[i]) == row[k]);
    assert(spec_split_target(o, row[k]) == seq![row[k]]);
}

/// ALL CAPS: a table letter (even columns hold the capitals, odd ones the
/// small letters) is written as the capital of the same letter in the target table.
pub proof fn lemma_convert_all_caps_letter(o: ConvertOptions, su: bool, j: u32, k: int, dflt: u16, row: Seq<u16>)
    requires
        o.to_all_caps,
        !o.to_all_non_caps,
        !o.remove_mark,
        spec_code_table(o.to_code as int, j) == Some(row),
        0 <= k < row.len(),
    ensures
        spec_convert_target(o, su, j, k, dflt) == row[if k % 2 == 0 { k } else { k - 1 }],
{
}

/// All lower case: a table letter is written as the small letter of the same
/// letter in the target table.
pub proof fn lemma_convert_all_lower_letter(o: ConvertOptions, j: u32, k: int, dflt: u16, row: Seq<u16>)
    requires
        o.to_all_non_caps,
        !o.to_all_caps,
        !o.remove_mark,
        spec_code_table(o.to_code as int, j) == Some(row),
        0 <= k,
        k + 1 < row.len() || k % 2 == 1,
        k < row.len(),
    ensures
        spec_convert_target(o, false, j, k, dflt) == row[if k % 2 == 1 { k } else { k + 1 }],
{
}

/// With no case option and no capital due, a table letter keeps its case:
/// it is written as the entry at the same column of the target table.
pub proof fn lemma_convert_keeps_case(o: ConvertOptions, j: u32, k: int, dflt: u16, row: Seq<u16>)
    requires
        !o.to_all_caps,
        !o.to_all_non_caps,
        !o.remove_mark,
        spec_code_table(o.to_code as int, j) == Some(row),
        0 <= k < row.len(),
    ensures
        spec_convert_target(o, false, j, k, dflt) == row[k],
{
}

/// ALL CAPS on a character of no code table (from Unicode or TCVN3): an ASCII
/// small letter is written 32 lower, as its capital; another code stays.
pub proof fn lemma_convert_all_caps_plain(d: Seq<u16>, i: int, su: bool, hb: bool, o: ConvertOptions)
    requires
        0 <= i < d.len(),
        d[i] < 256,
        o.from_code == 0 || o.from_code == 1,
        o.to_all_caps,
        spec_find_key_code(d[i], o.from_code as int, 0, 0) is None,
    ensures
        spec_convert_step(d, i, su, hb, o).0 == seq![if 97 <= d[i] <= 122 { (d[i] - 32) as u16 } else { d[i] }],
        spec_convert_step(d, i, su, hb, o).1 == i + 1,
{
    assert((d[i] as u8) as u16 == d[i]);
}

/// The character of an output code, '?' when it is not one (a surrogate).
pub open spec fn spec_output_char(c: u16) -> char {
    if is_scalar(c as u32) { (c as u32) as char } else { '?' }
}

/// The conversion of a text: its characters (each cut to 16 bits) converted
/// from the start, with the capitalization state set by the sentence and word options.
pub open spec fn spec_convert_util(s: Seq<char>, o: ConvertOptions) -> Seq<char> {
    let d = s.map_values(|c: char| (c as u32) as u16);
    let su = (o.to_caps_first_letter || o.to_caps_each_word) && !o.to_all_non_caps;
    spec_convert_from(d, 0, su, false, o).map_values(|c: u16| spec_output_char(c))
}

/// One conversion step (see `spec_convert_step`); the codes go to `out`.
#[verifier::spinoff_prover]
#[verifier::rlimit(100)]
fn convert_step(d: &Vec<u16>, i: usize, su: bool, hb: bool, o: &ConvertOptions, out: &mut Vec<u16>)
    -> (r: (usize, bool, bool))
    requires i < d@.len(),
    ensures
        ({
            let (piece, ni, su2, hb2) = spec_convert_step(d@, i as int, su, hb, *o);
            &&& final(out)@ == old(out)@ + piece
            &&& r.0 == ni
            &&& r.1 == su2
            &&& r.2 == hb2
        }),
        r.0 > i,
        r.0 <= d@.len(),
{
    let n = d.len();
    if i + 1 < n {
        let mut p: usize = 0;
        let t2: u16 = if o.from_code == 2 || o.from_code == 4 {
            p = 1;
            d[i] | (d[i + 1] << 8u16)
        } else if o.from_code == 3 {
            let m = get_unicode_compound_mark_index(d[i + 1]);
            if m > 0 {
                p = 1;
                d[i] | m
            } else {
                d[i]
            }
        } else {
            d[i]
        };
        match find_key_code(t2, o.from_code as usize) {
            Some((j, k)) => {
                let target = convert_target(o, su, j, k, d[i + p]);
                if o.to_code == 2 || o.to_code == 4 {
                    let hi = #[verifier::truncate] ((target >> 8u16) as u8);
                    if hi > 32 {
                        out.push(target & 0xFF);
                        out.push(hi as u16);
                    } else {
                        out.push(target & 0xFF);
                    }
                } else if o.to_code == 3 {
                    let mi = target >> 13u16;
                    if mi > 0 {
                        out.push(target & 0x1FFF);
                        if mi <= 5 {
                            let m = unicode_compound_mark();
                            out.push(m[(mi - 1) as usize]);
                        }
                    } else {
                        out.push(target);
                    }
                } else {
                    out.push(target);
                }
                proof {
                    let (piece, ni, su2, hb2) = spec_convert_step(d@, i as int, su, hb, *o);
                    assert(final(out)@ =~= old(out)@ + piece) by {
                        assert(piece == spec_split_target(*o, target));
                    }
                }
                return (i + p + 1, false, false);
            },
            None => {},
        }
    }
    match find_key_code(d[i], o.from_code as usize) {
        Some((j, k)) => {
            let target = convert_target(o, su, j, k, d[i]);
            out.push(target);
            return (i + 1, false, false);
        },
        None => {},
    }
    let t = d[i];
    let b = #[verifier::truncate] (t as u8);
    let c = if o.to_all_caps || su { upper(b) } else if o.to_all_non_caps { lower(b) } else { b as u16 };
    out.push(c);
    let caps_opt = o.to_caps_first_letter || o.to_caps_each_word;
    let mut su2 = su;
    let mut hb2 = hb;
    if t == 10 || (hb && t == 32) {
        if caps_opt {
            su2 = true;
        }
    } else if t == 32 && o.to_caps_each_word {
        su2 = true;
    } else if b == 46 || b == 63 || b == 33 {
        hb2 = true;
    } else {
        su2 = false;
        hb2 = false;
    }
    (i + 1, su2, hb2)
}

/// Converts `source_string` between code tables and changes its case or
/// removes its marks as `opts` asks (see `spec_convert_util`).
pub fn convert_util(source_string: &str, opts: &ConvertOptions) -> (r: String)
    ensures r@ == spec_convert_util(source_string@, *opts),
{
    let chars = str_to_chars(source_string);
    let mut data: Vec<u16> = Vec::new();
    let mut i: usize = 0;
    while i < chars.len()
        invariant
            i <= chars@.len(),
            chars@ == source_string@,
            data@ == source_string@.subrange(0, i as int).map_values(|c: char| (c as u32) as u16),
        decreases chars@.len() - i,
    {
        proof {
            assert(source_string@.subrange(0, i + 1).map_values(|c: char| (c as u32) as u16)
                =~= source_string@.subrange(0, i as int).map_values(|c: char| (c as u32) as u16)
                    .push((chars@[i as int] as u32) as u16));
        }
        data.push(#[verifier::truncate] ((chars[i] as u32) as u16));
        i = i + 1;
    }
    let ghost d = source_string@.map_values(|c: char| (c as u32) as u16);
    proof {
        assert(source_string@.subrange(0, source_string@.len() as int) =~= source_string@);
    }
    let mut su = (opts.to_caps_first_letter || opts.to_caps_each_word) && !opts.to_all_non_caps;
    let mut hb = false;
    let ghost su0 = su;
    let mut temp: Vec<u16> = Vec::new();
    let mut i: usize = 0;
    while i < data.len()
        invariant
            i <= data@.len(),
            data@ == d,
            temp@ + spec_convert_from(d, i as int, su, hb, *opts) == spec_convert_from(d, 0, su0, false, *opts),
        decreases data@.len() - i,
    {
        let ghost before = temp@;
        let (ni, s2, h2) = convert_step(&data, i, su, hb, opts, &mut temp);
        proof {
            assert(before + spec_convert_from(d, i as int, su, hb, *opts)
                =~= temp@ + spec_convert_from(d, ni as int, s2, h2, *opts));
        }
        i = ni;
        su = s2;
        hb = h2;
    }
    let mut out: Vec<char> = Vec::new();
    let mut k: usize = 0;
    while k < temp.len()
        invariant
            k <= temp@.len(),
            temp@ == spec_convert_from(d, 0, su0, false, *opts),
            out@ == temp@.subrange(0, k as int).map_values(|c: u16| spec_output_char(c)),
        decreases temp@.len() - k,
    {
        let c = match char_from_u32(temp[k] as u32) {
            Some(ch) => ch,
            None => '?',
        };
        proof {
            if is_scalar(temp@[k as int] as u32) {
                vstd::utf8::char_u32_cast(c, temp@[k as int] as u32);
            }
            assert(temp@.subrange(0, k + 1).map_values(|c: u16| spec_output_char(c))
                =~= temp@.subrange(0, k as int).map_values(|c: u16| spec_output_char(c)).push(c));
        }
        out.push(c);
        k = k + 1;
    }
    proof {
        assert(temp@.subrange(0, temp@.len() as int) =~= temp@);
    }
    chars_to_string(&out)
}

} // verus!
