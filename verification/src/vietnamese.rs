//! Vietnamese spelling tables and character maps.
//!
//! Each table is stated once as a spec function and built by an executable
//! function whose contract says that it gives back exactly that table.

use vstd::prelude::*;
use crate::datatype::{CAPS_MASK, CONSONANT_ALLOW_MASK, END_CONSONANT_MASK, TONEW_MASK, TONE_MASK};
use crate::keycode::{KEY_0, KEY_1, KEY_2, KEY_3, KEY_4, KEY_5, KEY_6, KEY_7, KEY_8, KEY_9, KEY_A, KEY_B, KEY_BACKQUOTE, KEY_BACK_SLASH, KEY_C, KEY_COMMA, KEY_D, KEY_DOT, KEY_E, KEY_EQUALS, KEY_F, KEY_G, KEY_H, KEY_I, KEY_J, KEY_K, KEY_L, KEY_LEFT_BRACKET, KEY_M, KEY_MINUS, KEY_N, KEY_O, KEY_P, KEY_Q, KEY_QUOTE, KEY_R, KEY_RIGHT_BRACKET, KEY_S, KEY_SEMICOLON, KEY_SLASH, KEY_SPACE, KEY_T, KEY_U, KEY_V, KEY_W, KEY_X, KEY_Y, KEY_Z};

verus! {

/// The rows of a table of vectors, each by its view.
pub open spec fn rows_of<T>(r: Seq<Vec<T>>) -> Seq<Seq<T>> {
    r.map_values(|v: Vec<T>| v@)
}

/// `r` holds, row by row, the sequences of `s`.
pub open spec fn rows_match<T>(r: Seq<Vec<T>>, s: Seq<Seq<T>>) -> bool {
    rows_of(r) == s
}

/// An empty table of vectors.
fn empty_rows<T>() -> (r: Vec<Vec<T>>)
    ensures rows_match(r@, Seq::<Seq<T>>::empty()),
{
    let r: Vec<Vec<T>> = Vec::new();
    proof {
        assert(rows_of(r@) =~= Seq::<Seq<T>>::empty());
    }
    r
}

/// The view of an optional vector.
pub open spec fn opt_seq<T>(o: Option<Vec<T>>) -> Option<Seq<T>> {
    match o {
        Some(v) => Some(v@),
        None => None,
    }
}

/// Vowel sequences that start with `a`.
pub open spec fn spec_vowel_a() -> Seq<Seq<u16>> {
    seq![
        seq![KEY_A, KEY_N, KEY_G],
        seq![KEY_A, KEY_G | END_CONSONANT_MASK],
        seq![KEY_A, KEY_N],
        seq![KEY_A, KEY_M],
        seq![KEY_A, KEY_U],
        seq![KEY_A, KEY_Y],
        seq![KEY_A, KEY_T],
        seq![KEY_A, KEY_P],
        seq![KEY_A],
        seq![KEY_A, KEY_C]
    ]
}

/// Vowel sequences that start with `a`.
pub fn vowel_a() -> (r: Vec<Vec<u16>>)
    ensures rows_match(r@, spec_vowel_a()),
{
    let r = vec![
        vec![KEY_A, KEY_N, KEY_G],
        vec![KEY_A, KEY_G | END_CONSONANT_MASK],
        vec![KEY_A, KEY_N],
        vec![KEY_A, KEY_M],
        vec![KEY_A, KEY_U],
        vec![KEY_A, KEY_Y],
        vec![KEY_A, KEY_T],
        vec![KEY_A, KEY_P],
        vec![KEY_A],
        vec![KEY_A, KEY_C]
    ];
    proof {
        assert(r@[0]@ == spec_vowel_a()[0]);
        assert(r@[1]@ == spec_vowel_a()[1]);
        assert(r@[2]@ == spec_vowel_a()[2]);
        assert(r@[3]@ == spec_vowel_a()[3]);
        assert(r@[4]@ == spec_vowel_a()[4]);
        assert(r@[5]@ == spec_vowel_a()[5]);
        assert(r@[6]@ == spec_vowel_a()[6]);
        assert(r@[7]@ == spec_vowel_a()[7]);
        assert(r@[8]@ == spec_vowel_a()[8]);
        assert(r@[9]@ == spec_vowel_a()[9]);
        assert(rows_of(r@) =~= spec_vowel_a());
    }
    r
}

/// Vowel sequences that start with `o`.
pub open spec fn spec_vowel_o() -> Seq<Seq<u16>> {
    seq![
        seq![KEY_O, KEY_N, KEY_G],
        seq![KEY_O, KEY_G | END_CONSONANT_MASK],
        seq![KEY_O, KEY_N],
        seq![KEY_O, KEY_M],
        seq![KEY_O, KEY_I],
        seq![KEY_O, KEY_C],
        seq![KEY_O, KEY_T],
        seq![KEY_O, KEY_P],
        seq![KEY_O]
    ]
}

/// Vowel sequences that start with `o`.
pub fn vowel_o() -> (r: Vec<Vec<u16>>)
    ensures rows_match(r@, spec_vowel_o()),
{
    let r = vec![
        vec![KEY_O, KEY_N, KEY_G],
        vec![KEY_O, KEY_G | END_CONSONANT_MASK],
        vec![KEY_O, KEY_N],
        vec![KEY_O, KEY_M],
        vec![KEY_O, KEY_I],
        vec![KEY_O, KEY_C],
        vec![KEY_O, KEY_T],
        vec![KEY_O, KEY_P],
        vec![KEY_O]
    ];
    proof {
        assert(r@[0]@ == spec_vowel_o()[0]);
        assert(r@[1]@ == spec_vowel_o()[1]);
        assert(r@[2]@ == spec_vowel_o()[2]);
        assert(r@[3]@ == spec_vowel_o()[3]);
        assert(r@[4]@ == spec_vowel_o()[4]);
        assert(r@[5]@ == spec_vowel_o()[5]);
        assert(r@[6]@ == spec_vowel_o()[6]);
        assert(r@[7]@ == spec_vowel_o()[7]);
        assert(r@[8]@ == spec_vowel_o()[8]);
        assert(rows_of(r@) =~= spec_vowel_o());
    }
    r
}

/// Vowel sequences that start with `e`.
pub open spec fn spec_vowel_e() -> Seq<Seq<u16>> {
    seq![
        seq![KEY_E, KEY_N, KEY_H],
        seq![KEY_E, KEY_H | END_CONSONANT_MASK],
        seq![KEY_E, KEY_N, KEY_G],
        seq![KEY_E, KEY_G | END_CONSONANT_MASK],
        seq![KEY_E, KEY_C, KEY_H],
        seq![KEY_E, KEY_K | END_CONSONANT_MASK],
        seq![KEY_E, KEY_C],
        seq![KEY_E, KEY_T],
        seq![KEY_E, KEY_Y],
        seq![KEY_E, KEY_U],
        seq![KEY_E, KEY_P],
        seq![KEY_E, KEY_C],
        seq![KEY_E, KEY_N],
        seq![KEY_E, KEY_M],
        seq![KEY_E]
    ]
}

/// Vowel sequences that start with `e`.
pub fn vowel_e() -> (r: Vec<Vec<u16>>)
    ensures rows_match(r@, spec_vowel_e()),
{
    let r = vec![
        vec![KEY_E, KEY_N, KEY_H],
        vec![KEY_E, KEY_H | END_CONSONANT_MASK],
        vec![KEY_E, KEY_N, KEY_G],
        vec![KEY_E, KEY_G | END_CONSONANT_MASK],
        vec![KEY_E, KEY_C, KEY_H],
        vec![KEY_E, KEY_K | END_CONSONANT_MASK],
        vec![KEY_E, KEY_C],
        vec![KEY_E, KEY_T],
        vec![KEY_E, KEY_Y],
        vec![KEY_E, KEY_U],
        vec![KEY_E, KEY_P],
        vec![KEY_E, KEY_C],
        vec![KEY_E, KEY_N],
        vec![KEY_E, KEY_M],
        vec![KEY_E]
    ];
    proof {
        assert(r@[0]@ == spec_vowel_e()[0]);
        assert(r@[1]@ == spec_vowel_e()[1]);
        assert(r@[2]@ == spec_vowel_e()[2]);
        assert(r@[3]@ == spec_vowel_e()[3]);
        assert(r@[4]@ == spec_vowel_e()[4]);
        assert(r@[5]@ == spec_vowel_e()[5]);
        assert(r@[6]@ == spec_vowel_e()[6]);
        assert(r@[7]@ == spec_vowel_e()[7]);
        assert(r@[8]@ == spec_vowel_e()[8]);
        assert(r@[9]@ == spec_vowel_e()[9]);
        assert(r@[10]@ == spec_vowel_e()[10]);
        assert(r@[11]@ == spec_vowel_e()[11]);
        assert(r@[12]@ == spec_vowel_e()[12]);
        assert(r@[13]@ == spec_vowel_e()[13]);
        assert(r@[14]@ == spec_vowel_e()[14]);
        assert(rows_of(r@) =~= spec_vowel_e());
    }
    r
}

/// Vowel sequences that take the `w` tone.
pub open spec fn spec_vowel_w() -> Seq<Seq<u16>> {
    seq![
        seq![KEY_O, KEY_N],
        seq![KEY_U, KEY_O, KEY_N, KEY_G],
        seq![KEY_U, KEY_O, KEY_G | END_CONSONANT_MASK],
        seq![KEY_U, KEY_O, KEY_N],
        seq![KEY_U, KEY_O, KEY_I],
        seq![KEY_U, KEY_O, KEY_C],
        seq![KEY_O, KEY_I],
        seq![KEY_O, KEY_P],
        seq![KEY_O, KEY_M],
        seq![KEY_O, KEY_A],
        seq![KEY_O, KEY_T],
        seq![KEY_U, KEY_N, KEY_G],
        seq![KEY_U, KEY_G | END_CONSONANT_MASK],
        seq![KEY_A, KEY_N, KEY_G],
        seq![KEY_A, KEY_G | END_CONSONANT_MASK],
        seq![KEY_U, KEY_N],
        seq![KEY_U, KEY_M],
        seq![KEY_U, KEY_C],
        seq![KEY_U, KEY_A],
        seq![KEY_U, KEY_I],
        seq![KEY_U, KEY_T],
        seq![KEY_U],
        seq![KEY_A, KEY_P],
        seq![KEY_A, KEY_T],
        seq![KEY_A, KEY_M],
        seq![KEY_A, KEY_N],
        seq![KEY_A],
        seq![KEY_A, KEY_C],
        seq![KEY_A, KEY_C, KEY_H],
        seq![KEY_A, KEY_K | END_CONSONANT_MASK],
        seq![KEY_O],
        seq![KEY_U, KEY_U]
    ]
}

/// Vowel sequences that take the `w` tone.
pub fn vowel_w() -> (r: Vec<Vec<u16>>)
    ensures rows_match(r@, spec_vowel_w()),
{
    let r = vec![
        vec![KEY_O, KEY_N],
        vec![KEY_U, KEY_O, KEY_N, KEY_G],
        vec![KEY_U, KEY_O, KEY_G | END_CONSONANT_MASK],
        vec![KEY_U, KEY_O, KEY_N],
        vec![KEY_U, KEY_O, KEY_I],
        vec![KEY_U, KEY_O, KEY_C],
        vec![KEY_O, KEY_I],
        vec![KEY_O, KEY_P],
        vec![KEY_O, KEY_M],
        vec![KEY_O, KEY_A],
        vec![KEY_O, KEY_T],
        vec![KEY_U, KEY_N, KEY_G],
        vec![KEY_U, KEY_G | END_CONSONANT_MASK],
        vec![KEY_A, KEY_N, KEY_G],
        vec![KEY_A, KEY_G | END_CONSONANT_MASK],
        vec![KEY_U, KEY_N],
        vec![KEY_U, KEY_M],
        vec![KEY_U, KEY_C],
        vec![KEY_U, KEY_A],
        vec![KEY_U, KEY_I],
        vec![KEY_U, KEY_T],
        vec![KEY_U],
        vec![KEY_A, KEY_P],
        vec![KEY_A, KEY_T],
        vec![KEY_A, KEY_M],
        vec![KEY_A, KEY_N],
        vec![KEY_A],
        vec![KEY_A, KEY_C],
        vec![KEY_A, KEY_C, KEY_H],
        vec![KEY_A, KEY_K | END_CONSONANT_MASK],
        vec![KEY_O],
        vec![KEY_U, KEY_U]
    ];
    proof {
        assert(r@[0]@ == spec_vowel_w()[0]);
        assert(r@[1]@ == spec_vowel_w()[1]);
        assert(r@[2]@ == spec_vowel_w()[2]);
        assert(r@[3]@ == spec_vowel_w()[3]);
        assert(r@[4]@ == spec_vowel_w()[4]);
        assert(r@[5]@ == spec_vowel_w()[5]);
        assert(r@[6]@ == spec_vowel_w()[6]);
        assert(r@[7]@ == spec_vowel_w()[7]);
        assert(r@[8]@ == spec_vowel_w()[8]);
        assert(r@[9]@ == spec_vowel_w()[9]);
        assert(r@[10]@ == spec_vowel_w()[10]);
        assert(r@[11]@ == spec_vowel_w()[11]);
        assert(r@[12]@ == spec_vowel_w()[12]);
        assert(r@[13]@ == spec_vowel_w()[13]);
        assert(r@[14]@ == spec_vowel_w()[14]);
        assert(r@[15]@ == spec_vowel_w()[15]);
        assert(r@[16]@ == spec_vowel_w()[16]);
        assert(r@[17]@ == spec_vowel_w()[17]);
        assert(r@[18]@ == spec_vowel_w()[18]);
        assert(r@[19]@ == spec_vowel_w()[19]);
        assert(r@[20]@ == spec_vowel_w()[20]);
        assert(r@[21]@ == spec_vowel_w()[21]);
        assert(r@[22]@ == spec_vowel_w()[22]);
        assert(r@[23]@ == spec_vowel_w()[23]);
        assert(r@[24]@ == spec_vowel_w()[24]);
        assert(r@[25]@ == spec_vowel_w()[25]);
        assert(r@[26]@ == spec_vowel_w()[26]);
        assert(r@[27]@ == spec_vowel_w()[27]);
        assert(r@[28]@ == spec_vowel_w()[28]);
        assert(r@[29]@ == spec_vowel_w()[29]);
        assert(r@[30]@ == spec_vowel_w()[30]);
        assert(r@[31]@ == spec_vowel_w()[31]);
        assert(rows_of(r@) =~= spec_vowel_w());
    }
    r
}

/// Word shapes starting with `d` that accept `đ`.
pub open spec fn spec_consonant_d() -> Seq<Seq<u16>> {
    seq![
        seq![KEY_D, KEY_E, KEY_N, KEY_H],
        seq![KEY_D, KEY_E, KEY_H | END_CONSONANT_MASK],
        seq![KEY_D, KEY_E, KEY_N, KEY_G],
        seq![KEY_D, KEY_E, KEY_G | END_CONSONANT_MASK],
        seq![KEY_D, KEY_E, KEY_C, KEY_H],
        seq![KEY_D, KEY_E, KEY_K | END_CONSONANT_MASK],
        seq![KEY_D, KEY_E, KEY_N],
        seq![KEY_D, KEY_E, KEY_C],
        seq![KEY_D, KEY_E, KEY_M],
        seq![KEY_D, KEY_E],
        seq![KEY_D, KEY_E, KEY_T],
        seq![KEY_D, KEY_E, KEY_U],
        seq![KEY_D, KEY_E, KEY_O],
        seq![KEY_D, KEY_E, KEY_P],
        seq![KEY_D, KEY_U, KEY_N, KEY_G],
        seq![KEY_D, KEY_U, KEY_G | END_CONSONANT_MASK],
        seq![KEY_D, KEY_U, KEY_N],
        seq![KEY_D, KEY_U, KEY_M],
        seq![KEY_D, KEY_U, KEY_C],
        seq![KEY_D, KEY_U, KEY_O],
        seq![KEY_D, KEY_U, KEY_A],
        seq![KEY_D, KEY_U, KEY_O, KEY_I],
        seq![KEY_D, KEY_U, KEY_O, KEY_C],
        seq![KEY_D, KEY_U, KEY_O, KEY_N],
        seq![KEY_D, KEY_U, KEY_O, KEY_N, KEY_G],
        seq![KEY_D, KEY_U, KEY_O, KEY_G | END_CONSONANT_MASK],
        seq![KEY_D, KEY_U],
        seq![KEY_D, KEY_U, KEY_P],
        seq![KEY_D, KEY_U, KEY_T],
        seq![KEY_D, KEY_U, KEY_I],
        seq![KEY_D, KEY_I, KEY_C, KEY_H],
        seq![KEY_D, KEY_I, KEY_K | END_CONSONANT_MASK],
        seq![KEY_D, KEY_I, KEY_C],
        seq![KEY_D, KEY_I, KEY_N, KEY_H],
        seq![KEY_D, KEY_I, KEY_H | END_CONSONANT_MASK],
        seq![KEY_D, KEY_I, KEY_N],
        seq![KEY_D, KEY_I],
        seq![KEY_D, KEY_I, KEY_A],
        seq![KEY_D, KEY_I, KEY_E],
        seq![KEY_D, KEY_I, KEY_E, KEY_C],
        seq![KEY_D, KEY_I, KEY_E, KEY_U],
        seq![KEY_D, KEY_I, KEY_E, KEY_N],
        seq![KEY_D, KEY_I, KEY_E, KEY_M],
        seq![KEY_D, KEY_I, KEY_E, KEY_P],
        seq![KEY_D, KEY_I, KEY_T],
        seq![KEY_D, KEY_O],
        seq![KEY_D, KEY_O, KEY_A],
        seq![KEY_D, KEY_O, KEY_A, KEY_N],
        seq![KEY_D, KEY_O, KEY_A, KEY_N, KEY_G],
        seq![KEY_D, KEY_O, KEY_A, KEY_G | END_CONSONANT_MASK],
        seq![KEY_D, KEY_O, KEY_A, KEY_N, KEY_H],
        seq![KEY_D, KEY_O, KEY_A, KEY_H | END_CONSONANT_MASK],
        seq![KEY_D, KEY_O, KEY_A, KEY_M],
        seq![KEY_D, KEY_O, KEY_E],
        seq![KEY_D, KEY_O, KEY_I],
        seq![KEY_D, KEY_O, KEY_P],
        seq![KEY_D, KEY_O, KEY_C],
        seq![KEY_D, KEY_O, KEY_N],
        seq![KEY_D, KEY_O, KEY_N, KEY_G],
        seq![KEY_D, KEY_O, KEY_G | END_CONSONANT_MASK],
        seq![KEY_D, KEY_O, KEY_M],
        seq![KEY_D, KEY_O, KEY_T],
        seq![KEY_D, KEY_A],
        seq![KEY_D, KEY_A, KEY_T],
        seq![KEY_D, KEY_A, KEY_Y],
        seq![KEY_D, KEY_A, KEY_U],
        seq![KEY_D, KEY_A, KEY_I],
        seq![KEY_D, KEY_A, KEY_O],
        seq![KEY_D, KEY_A, KEY_P],
        seq![KEY_D, KEY_A, KEY_C],
        seq![KEY_D, KEY_A, KEY_C, KEY_H],
        seq![KEY_D, KEY_A, KEY_K | END_CONSONANT_MASK],
        seq![KEY_D, KEY_A, KEY_N],
        seq![KEY_D, KEY_A, KEY_N, KEY_H],
        seq![KEY_D, KEY_A, KEY_H | END_CONSONANT_MASK],
        seq![KEY_D, KEY_A, KEY_N, KEY_G],
        seq![KEY_D, KEY_A, KEY_G | END_CONSONANT_MASK],
        seq![KEY_D, KEY_A, KEY_M],
        seq![KEY_D]
    ]
}

/// Word shapes starting with `d` that accept `đ`.
pub fn consonant_d() -> (r: Vec<Vec<u16>>)
    ensures rows_match(r@, spec_consonant_d()),
{
    let r = vec![
        vec![KEY_D, KEY_E, KEY_N, KEY_H],
        vec![KEY_D, KEY_E, KEY_H | END_CONSONANT_MASK],
        vec![KEY_D, KEY_E, KEY_N, KEY_G],
        vec![KEY_D, KEY_E, KEY_G | END_CONSONANT_MASK],
        vec![KEY_D, KEY_E, KEY_C, KEY_H],
        vec![KEY_D, KEY_E, KEY_K | END_CONSONANT_MASK],
        vec![KEY_D, KEY_E, KEY_N],
        vec![KEY_D, KEY_E, KEY_C],
        vec![KEY_D, KEY_E, KEY_M],
        vec![KEY_D, KEY_E],
        vec![KEY_D, KEY_E, KEY_T],
        vec![KEY_D, KEY_E, KEY_U],
        vec![KEY_D, KEY_E, KEY_O],
        vec![KEY_D, KEY_E, KEY_P],
        vec![KEY_D, KEY_U, KEY_N, KEY_G],
        vec![KEY_D, KEY_U, KEY_G | END_CONSONANT_MASK],
        vec![KEY_D, KEY_U, KEY_N],
        vec![KEY_D, KEY_U, KEY_M],
        vec![KEY_D, KEY_U, KEY_C],
        vec![KEY_D, KEY_U, KEY_O],
        vec![KEY_D, KEY_U, KEY_A],
        vec![KEY_D, KEY_U, KEY_O, KEY_I],
        vec![KEY_D, KEY_U, KEY_O, KEY_C],
        vec![KEY_D, KEY_U, KEY_O, KEY_N],
        vec![KEY_D, KEY_U, KEY_O, KEY_N, KEY_G],
        vec![KEY_D, KEY_U, KEY_O, KEY_G | END_CONSONANT_MASK],
        vec![KEY_D, KEY_U],
        vec![KEY_D, KEY_U, KEY_P],
        vec![KEY_D, KEY_U, KEY_T],
        vec![KEY_D, KEY_U, KEY_I],
        vec![KEY_D, KEY_I, KEY_C, KEY_H],
        vec![KEY_D, KEY_I, KEY_K | END_CONSONANT_MASK],
        vec![KEY_D, KEY_I, KEY_C],
        vec![KEY_D, KEY_I, KEY_N, KEY_H],
        vec![KEY_D, KEY_I, KEY_H | END_CONSONANT_MASK],
        vec![KEY_D, KEY_I, KEY_N],
        vec![KEY_D, KEY_I],
        vec![KEY_D, KEY_I, KEY_A],
        vec![KEY_D, KEY_I, KEY_E],
        vec![KEY_D, KEY_I, KEY_E, KEY_C],
        vec![KEY_D, KEY_I, KEY_E, KEY_U],
        vec![KEY_D, KEY_I, KEY_E, KEY_N],
        vec![KEY_D, KEY_I, KEY_E, KEY_M],
        vec![KEY_D, KEY_I, KEY_E, KEY_P],
        vec![KEY_D, KEY_I, KEY_T],
        vec![KEY_D, KEY_O],
        vec![KEY_D, KEY_O, KEY_A],
        vec![KEY_D, KEY_O, KEY_A, KEY_N],
        vec![KEY_D, KEY_O, KEY_A, KEY_N, KEY_G],
        vec![KEY_D, KEY_O, KEY_A, KEY_G | END_CONSONANT_MASK],
        vec![KEY_D, KEY_O, KEY_A, KEY_N, KEY_H],
        vec![KEY_D, KEY_O, KEY_A, KEY_H | END_CONSONANT_MASK],
        vec![KEY_D, KEY_O, KEY_A, KEY_M],
        vec![KEY_D, KEY_O, KEY_E],
        vec![KEY_D, KEY_O, KEY_I],
        vec![KEY_D, KEY_O, KEY_P],
        vec![KEY_D, KEY_O, KEY_C],
        vec![KEY_D, KEY_O, KEY_N],
        vec![KEY_D, KEY_O, KEY_N, KEY_G],
        vec![KEY_D, KEY_O, KEY_G | END_CONSONANT_MASK],
        vec![KEY_D, KEY_O, KEY_M],
        vec![KEY_D, KEY_O, KEY_T],
        vec![KEY_D, KEY_A],
        vec![KEY_D, KEY_A, KEY_T],
        vec![KEY_D, KEY_A, KEY_Y],
        vec![KEY_D, KEY_A, KEY_U],
        vec![KEY_D, KEY_A, KEY_I],
        vec![KEY_D, KEY_A, KEY_O],
        vec![KEY_D, KEY_A, KEY_P],
        vec![KEY_D, KEY_A, KEY_C],
        vec![KEY_D, KEY_A, KEY_C, KEY_H],
        vec![KEY_D, KEY_A, KEY_K | END_CONSONANT_MASK],
        vec![KEY_D, KEY_A, KEY_N],
        vec![KEY_D, KEY_A, KEY_N, KEY_H],
        vec![KEY_D, KEY_A, KEY_H | END_CONSONANT_MASK],
        vec![KEY_D, KEY_A, KEY_N, KEY_G],
        vec![KEY_D, KEY_A, KEY_G | END_CONSONANT_MASK],
        vec![KEY_D, KEY_A, KEY_M],
        vec![KEY_D]
    ];
    proof {
        assert(r@[0]@ == spec_consonant_d()[0]);
        assert(r@[1]@ == spec_consonant_d()[1]);
        assert(r@[2]@ == spec_consonant_d()[2]);
        assert(r@[3]@ == spec_consonant_d()[3]);
        assert(r@[4]@ == spec_consonant_d()[4]);
        assert(r@[5]@ == spec_consonant_d()[5]);
        assert(r@[6]@ == spec_consonant_d()[6]);
        assert(r@[7]@ == spec_consonant_d()[7]);
        assert(r@[8]@ == spec_consonant_d()[8]);
        assert(r@[9]@ == spec_consonant_d()[9]);
        assert(r@[10]@ == spec_consonant_d()[10]);
        assert(r@[11]@ == spec_consonant_d()[11]);
        assert(r@[12]@ == spec_consonant_d()[12]);
        assert(r@[13]@ == spec_consonant_d()[13]);
        assert(r@[14]@ == spec_consonant_d()[14]);
        assert(r@[15]@ == spec_consonant_d()[15]);
        assert(r@[16]@ == spec_consonant_d()[16]);
        assert(r@[17]@ == spec_consonant_d()[17]);
        assert(r@[18]@ == spec_consonant_d()[18]);
        assert(r@[19]@ == spec_consonant_d()[19]);
        assert(r@[20]@ == spec_consonant_d()[20]);
        assert(r@[21]@ == spec_consonant_d()[21]);
        assert(r@[22]@ == spec_consonant_d()[22]);
        assert(r@[23]@ == spec_consonant_d()[23]);
        assert(r@[24]@ == spec_consonant_d()[24]);
        assert(r@[25]@ == spec_consonant_d()[25]);
        assert(r@[26]@ == spec_consonant_d()[26]);
        assert(r@[27]@ == spec_consonant_d()[27]);
        assert(r@[28]@ == spec_consonant_d()[28]);
        assert(r@[29]@ == spec_consonant_d()[29]);
        assert(r@[30]@ == spec_consonant_d()[30]);
        assert(r@[31]@ == spec_consonant_d()[31]);
        assert(r@[32]@ == spec_consonant_d()[32]);
        assert(r@[33]@ == spec_consonant_d()[33]);
        assert(r@[34]@ == spec_consonant_d()[34]);
        assert(r@[35]@ == spec_consonant_d()[35]);
        assert(r@[36]@ == spec_consonant_d()[36]);
        assert(r@[37]@ == spec_consonant_d()[37]);
        assert(r@[38]@ == spec_consonant_d()[38]);
        assert(r@[39]@ == spec_consonant_d()[39]);
        assert(r@[40]@ == spec_consonant_d()[40]);
        assert(r@[41]@ == spec_consonant_d()[41]);
        assert(r@[42]@ == spec_consonant_d()[42]);
        assert(r@[43]@ == spec_consonant_d()[43]);
        assert(r@[44]@ == spec_consonant_d()[44]);
        assert(r@[45]@ == spec_consonant_d()[45]);
        assert(r@[46]@ == spec_consonant_d()[46]);
        assert(r@[47]@ == spec_consonant_d()[47]);
        assert(r@[48]@ == spec_consonant_d()[48]);
        assert(r@[49]@ == spec_consonant_d()[49]);
        assert(r@[50]@ == spec_consonant_d()[50]);
        assert(r@[51]@ == spec_consonant_d()[51]);
        assert(r@[52]@ == spec_consonant_d()[52]);
        assert(r@[53]@ == spec_consonant_d()[53]);
        assert(r@[54]@ == spec_consonant_d()[54]);
        assert(r@[55]@ == spec_consonant_d()[55]);
        assert(r@[56]@ == spec_consonant_d()[56]);
        assert(r@[57]@ == spec_consonant_d()[57]);
        assert(r@[58]@ == spec_consonant_d()[58]);
        assert(r@[59]@ == spec_consonant_d()[59]);
        assert(r@[60]@ == spec_consonant_d()[60]);
        assert(r@[61]@ == spec_consonant_d()[61]);
        assert(r@[62]@ == spec_consonant_d()[62]);
        assert(r@[63]@ == spec_consonant_d()[63]);
        assert(r@[64]@ == spec_consonant_d()[64]);
        assert(r@[65]@ == spec_consonant_d()[65]);
        assert(r@[66]@ == spec_consonant_d()[66]);
        assert(r@[67]@ == spec_consonant_d()[67]);
        assert(r@[68]@ == spec_consonant_d()[68]);
        assert(r@[69]@ == spec_consonant_d()[69]);
        assert(r@[70]@ == spec_consonant_d()[70]);
        assert(r@[71]@ == spec_consonant_d()[71]);
        assert(r@[72]@ == spec_consonant_d()[72]);
        assert(r@[73]@ == spec_consonant_d()[73]);
        assert(r@[74]@ == spec_consonant_d()[74]);
        assert(r@[75]@ == spec_consonant_d()[75]);
        assert(r@[76]@ == spec_consonant_d()[76]);
        assert(r@[77]@ == spec_consonant_d()[77]);
        assert(r@[78]@ == spec_consonant_d()[78]);
        assert(rows_of(r@) =~= spec_consonant_d());
    }
    r
}

/// Word tails starting with `a` that accept a mark.
pub open spec fn spec_vowel_for_mark_a() -> Seq<Seq<u16>> {
    seq![
        seq![KEY_A, KEY_N, KEY_G],
        seq![KEY_A, KEY_G | END_CONSONANT_MASK],
        seq![KEY_A, KEY_N],
        seq![KEY_A, KEY_N, KEY_H],
        seq![KEY_A, KEY_H | END_CONSONANT_MASK],
        seq![KEY_A, KEY_M],
        seq![KEY_A, KEY_U],
        seq![KEY_A, KEY_Y],
        seq![KEY_A, KEY_T],
        seq![KEY_A, KEY_P],
        seq![KEY_A],
        seq![KEY_A, KEY_C],
        seq![KEY_A, KEY_I],
        seq![KEY_A, KEY_O],
        seq![KEY_A, KEY_C, KEY_H],
        seq![KEY_A, KEY_K | END_CONSONANT_MASK]
    ]
}

/// Word tails starting with `a` that accept a mark.
pub fn vowel_for_mark_a() -> (r: Vec<Vec<u16>>)
    ensures rows_match(r@, spec_vowel_for_mark_a()),
{
    let r = vec![
        vec![KEY_A, KEY_N, KEY_G],
        vec![KEY_A, KEY_G | END_CONSONANT_MASK],
        vec![KEY_A, KEY_N],
        vec![KEY_A, KEY_N, KEY_H],
        vec![KEY_A, KEY_H | END_CONSONANT_MASK],
        vec![KEY_A, KEY_M],
        vec![KEY_A, KEY_U],
        vec![KEY_A, KEY_Y],
        vec![KEY_A, KEY_T],
        vec![KEY_A, KEY_P],
        vec![KEY_A],
        vec![KEY_A, KEY_C],
        vec![KEY_A, KEY_I],
        vec![KEY_A, KEY_O],
        vec![KEY_A, KEY_C, KEY_H],
        vec![KEY_A, KEY_K | END_CONSONANT_MASK]
    ];
    proof {
        assert(r@[0]@ == spec_vowel_for_mark_a()[0]);
        assert(r@[1]@ == spec_vowel_for_mark_a()[1]);
        assert(r@[2]@ == spec_vowel_for_mark_a()[2]);
        assert(r@[3]@ == spec_vowel_for_mark_a()[3]);
        assert(r@[4]@ == spec_vowel_for_mark_a()[4]);
        assert(r@[5]@ == spec_vowel_for_mark_a()[5]);
        assert(r@[6]@ == spec_vowel_for_mark_a()[6]);
        assert(r@[7]@ == spec_vowel_for_mark_a()[7]);
        assert(r@[8]@ == spec_vowel_for_mark_a()[8]);
        assert(r@[9]@ == spec_vowel_for_mark_a()[9]);
        assert(r@[10]@ == spec_vowel_for_mark_a()[10]);
        assert(r@[11]@ == spec_vowel_for_mark_a()[11]);
        assert(r@[12]@ == spec_vowel_for_mark_a()[12]);
        assert(r@[13]@ == spec_vowel_for_mark_a()[13]);
        assert(r@[14]@ == spec_vowel_for_mark_a()[14]);
        assert(r@[15]@ == spec_vowel_for_mark_a()[15]);
        assert(rows_of(r@) =~= spec_vowel_for_mark_a());
    }
    r
}

/// Word tails starting with `o` that accept a mark.
pub open spec fn spec_vowel_for_mark_o() -> Seq<Seq<u16>> {
    seq![
        seq![KEY_O, KEY_O, KEY_N, KEY_G],
        seq![KEY_O, KEY_O, KEY_G | END_CONSONANT_MASK],
        seq![KEY_O, KEY_N, KEY_G],
        seq![KEY_O, KEY_G | END_CONSONANT_MASK],
        seq![KEY_O, KEY_O, KEY_N],
        seq![KEY_O, KEY_O, KEY_C],
        seq![KEY_O, KEY_O],
        seq![KEY_O, KEY_N],
        seq![KEY_O, KEY_M],
        seq![KEY_O, KEY_I],
        seq![KEY_O, KEY_C],
        seq![KEY_O, KEY_T],
        seq![KEY_O, KEY_P],
        seq![KEY_O]
    ]
}

/// Word tails starting with `o` that accept a mark.
pub fn vowel_for_mark_o() -> (r: Vec<Vec<u16>>)
    ensures rows_match(r@, spec_vowel_for_mark_o()),
{
    let r = vec![
        vec![KEY_O, KEY_O, KEY_N, KEY_G],
        vec![KEY_O, KEY_O, KEY_G | END_CONSONANT_MASK],
        vec![KEY_O, KEY_N, KEY_G],
        vec![KEY_O, KEY_G | END_CONSONANT_MASK],
        vec![KEY_O, KEY_O, KEY_N],
        vec![KEY_O, KEY_O, KEY_C],
        vec![KEY_O, KEY_O],
        vec![KEY_O, KEY_N],
        vec![KEY_O, KEY_M],
        vec![KEY_O, KEY_I],
        vec![KEY_O, KEY_C],
        vec![KEY_O, KEY_T],
        vec![KEY_O, KEY_P],
        vec![KEY_O]
    ];
    proof {
        assert(r@[0]@ == spec_vowel_for_mark_o()[0]);
        assert(r@[1]@ == spec_vowel_for_mark_o()[1]);
        assert(r@[2]@ == spec_vowel_for_mark_o()[2]);
        assert(r@[3]@ == spec_vowel_for_mark_o()[3]);
        assert(r@[4]@ == spec_vowel_for_mark_o()[4]);
        assert(r@[5]@ == spec_vowel_for_mark_o()[5]);
        assert(r@[6]@ == spec_vowel_for_mark_o()[6]);
        assert(r@[7]@ == spec_vowel_for_mark_o()[7]);
        assert(r@[8]@ == spec_vowel_for_mark_o()[8]);
        assert(r@[9]@ == spec_vowel_for_mark_o()[9]);
        assert(r@[10]@ == spec_vowel_for_mark_o()[10]);
        assert(r@[11]@ == spec_vowel_for_mark_o()[11]);
        assert(r@[12]@ == spec_vowel_for_mark_o()[12]);
        assert(r@[13]@ == spec_vowel_for_mark_o()[13]);
        assert(rows_of(r@) =~= spec_vowel_for_mark_o());
    }
    r
}

/// Word tails starting with `e` that accept a mark.
pub open spec fn spec_vowel_for_mark_e() -> Seq<Seq<u16>> {
    seq![
        seq![KEY_E, KEY_N, KEY_H],
        seq![KEY_E, KEY_H | END_CONSONANT_MASK],
        seq![KEY_E, KEY_N, KEY_G],
        seq![KEY_E, KEY_G | END_CONSONANT_MASK],
        seq![KEY_E, KEY_C, KEY_H],
        seq![KEY_E, KEY_K | END_CONSONANT_MASK],
        seq![KEY_E, KEY_C],
        seq![KEY_E, KEY_T],
        seq![KEY_E, KEY_Y],
        seq![KEY_E, KEY_U],
        seq![KEY_E, KEY_P],
        seq![KEY_E, KEY_C],
        seq![KEY_E, KEY_N],
        seq![KEY_E, KEY_M],
        seq![KEY_E]
    ]
}

/// Word tails starting with `e` that accept a mark.
pub fn vowel_for_mark_e() -> (r: Vec<Vec<u16>>)
    ensures rows_match(r@, spec_vowel_for_mark_e()),
{
    let r = vec![
        vec![KEY_E, KEY_N, KEY_H],
        vec![KEY_E, KEY_H | END_CONSONANT_MASK],
        vec![KEY_E, KEY_N, KEY_G],
        vec![KEY_E, KEY_G | END_CONSONANT_MASK],
        vec![KEY_E, KEY_C, KEY_H],
        vec![KEY_E, KEY_K | END_CONSONANT_MASK],
        vec![KEY_E, KEY_C],
        vec![KEY_E, KEY_T],
        vec![KEY_E, KEY_Y],
        vec![KEY_E, KEY_U],
        vec![KEY_E, KEY_P],
        vec![KEY_E, KEY_C],
        vec![KEY_E, KEY_N],
        vec![KEY_E, KEY_M],
        vec![KEY_E]
    ];
    proof {
        assert(r@[0]@ == spec_vowel_for_mark_e()[0]);
        assert(r@[1]@ == spec_vowel_for_mark_e()[1]);
        assert(r@[2]@ == spec_vowel_for_mark_e()[2]);
        assert(r@[3]@ == spec_vowel_for_mark_e()[3]);
        assert(r@[4]@ == spec_vowel_for_mark_e()[4]);
        assert(r@[5]@ == spec_vowel_for_mark_e()[5]);
        assert(r@[6]@ == spec_vowel_for_mark_e()[6]);
        assert(r@[7]@ == spec_vowel_for_mark_e()[7]);
        assert(r@[8]@ == spec_vowel_for_mark_e()[8]);
        assert(r@[9]@ == spec_vowel_for_mark_e()[9]);
        assert(r@[10]@ == spec_vowel_for_mark_e()[10]);
        assert(r@[11]@ == spec_vowel_for_mark_e()[11]);
        assert(r@[12]@ == spec_vowel_for_mark_e()[12]);
        assert(r@[13]@ == spec_vowel_for_mark_e()[13]);
        assert(r@[14]@ == spec_vowel_for_mark_e()[14]);
        assert(rows_of(r@) =~= spec_vowel_for_mark_e());
    }
    r
}

/// Word tails starting with `i` that accept a mark.
pub open spec fn spec_vowel_for_mark_i() -> Seq<Seq<u16>> {
    seq![
        seq![KEY_I, KEY_N, KEY_H],
        seq![KEY_I, KEY_H | END_CONSONANT_MASK],
        seq![KEY_I, KEY_C, KEY_H],
        seq![KEY_I, KEY_K | END_CONSONANT_MASK],
        seq![KEY_I, KEY_N],
        seq![KEY_I, KEY_T],
        seq![KEY_I, KEY_U],
        seq![KEY_I, KEY_U, KEY_P],
        seq![KEY_I, KEY_N],
        seq![KEY_I, KEY_M],
        seq![KEY_I, KEY_P],
        seq![KEY_I, KEY_A],
        seq![KEY_I, KEY_C],
        seq![KEY_I]
    ]
}

/// Word tails starting with `i` that accept a mark.
pub fn vowel_for_mark_i() -> (r: Vec<Vec<u16>>)
    ensures rows_match(r@, spec_vowel_for_mark_i()),
{
    let r = vec![
        vec![KEY_I, KEY_N, KEY_H],
        vec![KEY_I, KEY_H | END_CONSONANT_MASK],
        vec![KEY_I, KEY_C, KEY_H],
        vec![KEY_I, KEY_K | END_CONSONANT_MASK],
        vec![KEY_I, KEY_N],
        vec![KEY_I, KEY_T],
        vec![KEY_I, KEY_U],
        vec![KEY_I, KEY_U, KEY_P],
        vec![KEY_I, KEY_N],
        vec![KEY_I, KEY_M],
        vec![KEY_I, KEY_P],
        vec![KEY_I, KEY_A],
        vec![KEY_I, KEY_C],
        vec![KEY_I]
    ];
    proof {
        assert(r@[0]@ == spec_vowel_for_mark_i()[0]);
        assert(r@[1]@ == spec_vowel_for_mark_i()[1]);
        assert(r@[2]@ == spec_vowel_for_mark_i()[2]);
        assert(r@[3]@ == spec_vowel_for_mark_i()[3]);
        assert(r@[4]@ == spec_vowel_for_mark_i()[4]);
        assert(r@[5]@ == spec_vowel_for_mark_i()[5]);
        assert(r@[6]@ == spec_vowel_for_mark_i()[6]);
        assert(r@[7]@ == spec_vowel_for_mark_i()[7]);
        assert(r@[8]@ == spec_vowel_for_mark_i()[8]);
        assert(r@[9]@ == spec_vowel_for_mark_i()[9]);
        assert(r@[10]@ == spec_vowel_for_mark_i()[10]);
        assert(r@[11]@ == spec_vowel_for_mark_i()[11]);
        assert(r@[12]@ == spec_vowel_for_mark_i()[12]);
        assert(r@[13]@ == spec_vowel_for_mark_i()[13]);
        assert(rows_of(r@) =~= spec_vowel_for_mark_i());
    }
    r
}

/// Word tails starting with `u` that accept a mark.
pub open spec fn spec_vowel_for_mark_u() -> Seq<Seq<u16>> {
    seq![
        seq![KEY_U, KEY_N, KEY_G],
        seq![KEY_U, KEY_G | END_CONSONANT_MASK],
        seq![KEY_U, KEY_I],
        seq![KEY_U, KEY_O],
        seq![KEY_U, KEY_Y],
        seq![KEY_U, KEY_Y, KEY_N],
        seq![KEY_U, KEY_Y, KEY_T],
        seq![KEY_U, KEY_Y, KEY_P],
        seq![KEY_U, KEY_Y, KEY_C, KEY_H],
        seq![KEY_U, KEY_Y, KEY_K | END_CONSONANT_MASK],
        seq![KEY_U, KEY_Y, KEY_N, KEY_H],
        seq![KEY_U, KEY_Y, KEY_H | END_CONSONANT_MASK],
        seq![KEY_U, KEY_T],
        seq![KEY_U, KEY_U],
        seq![KEY_U, KEY_A],
        seq![KEY_U, KEY_I],
        seq![KEY_U, KEY_C],
        seq![KEY_U, KEY_N],
        seq![KEY_U, KEY_M],
        seq![KEY_U, KEY_P],
        seq![KEY_U]
    ]
}

/// Word tails starting with `u` that accept a mark.
pub fn vowel_for_mark_u() -> (r: Vec<Vec<u16>>)
    ensures rows_match(r@, spec_vowel_for_mark_u()),
{
    let r = vec![
        vec![KEY_U, KEY_N, KEY_G],
        vec![KEY_U, KEY_G | END_CONSONANT_MASK],
        vec![KEY_U, KEY_I],
        vec![KEY_U, KEY_O],
        vec![KEY_U, KEY_Y],
        vec![KEY_U, KEY_Y, KEY_N],
        vec![KEY_U, KEY_Y, KEY_T],
        vec![KEY_U, KEY_Y, KEY_P],
        vec![KEY_U, KEY_Y, KEY_C, KEY_H],
        vec![KEY_U, KEY_Y, KEY_K | END_CONSONANT_MASK],
        vec![KEY_U, KEY_Y, KEY_N, KEY_H],
        vec![KEY_U, KEY_Y, KEY_H | END_CONSONANT_MASK],
        vec![KEY_U, KEY_T],
        vec![KEY_U, KEY_U],
        vec![KEY_U, KEY_A],
        vec![KEY_U, KEY_I],
        vec![KEY_U, KEY_C],
        vec![KEY_U, KEY_N],
        vec![KEY_U, KEY_M],
        vec![KEY_U, KEY_P],
        vec![KEY_U]
    ];
    proof {
        assert(r@[0]@ == spec_vowel_for_mark_u()[0]);
        assert(r@[1]@ == spec_vowel_for_mark_u()[1]);
        assert(r@[2]@ == spec_vowel_for_mark_u()[2]);
        assert(r@[3]@ == spec_vowel_for_mark_u()[3]);
        assert(r@[4]@ == spec_vowel_for_mark_u()[4]);
        assert(r@[5]@ == spec_vowel_for_mark_u()[5]);
        assert(r@[6]@ == spec_vowel_for_mark_u()[6]);
        assert(r@[7]@ == spec_vowel_for_mark_u()[7]);
        assert(r@[8]@ == spec_vowel_for_mark_u()[8]);
        assert(r@[9]@ == spec_vowel_for_mark_u()[9]);
        assert(r@[10]@ == spec_vowel_for_mark_u()[10]);
        assert(r@[11]@ == spec_vowel_for_mark_u()[11]);
        assert(r@[12]@ == spec_vowel_for_mark_u()[12]);
        assert(r@[13]@ == spec_vowel_for_mark_u()[13]);
        assert(r@[14]@ == spec_vowel_for_mark_u()[14]);
        assert(r@[15]@ == spec_vowel_for_mark_u()[15]);
        assert(r@[16]@ == spec_vowel_for_mark_u()[16]);
        assert(r@[17]@ == spec_vowel_for_mark_u()[17]);
        assert(r@[18]@ == spec_vowel_for_mark_u()[18]);
        assert(r@[19]@ == spec_vowel_for_mark_u()[19]);
        assert(r@[20]@ == spec_vowel_for_mark_u()[20]);
        assert(rows_of(r@) =~= spec_vowel_for_mark_u());
    }
    r
}

/// Word tails starting with `y` that accept a mark.
pub open spec fn spec_vowel_for_mark_y() -> Seq<Seq<u16>> {
    seq![seq![KEY_Y]]
}

/// Word tails starting with `y` that accept a mark.
pub fn vowel_for_mark_y() -> (r: Vec<Vec<u16>>)
    ensures rows_match(r@, spec_vowel_for_mark_y()),
{
    let r = vec![vec![KEY_Y]];
    proof {
        assert(r@[0]@ == spec_vowel_for_mark_y()[0]);
        assert(rows_of(r@) =~= spec_vowel_for_mark_y());
    }
    r
}

/// First consonants of a Vietnamese word.
pub open spec fn spec_consonant_table() -> Seq<Seq<u16>> {
    seq![
        seq![KEY_N, KEY_G, KEY_H],
        seq![KEY_P, KEY_H],
        seq![KEY_T, KEY_H],
        seq![KEY_T, KEY_R],
        seq![KEY_G, KEY_I],
        seq![KEY_C, KEY_H],
        seq![KEY_N, KEY_H],
        seq![KEY_N, KEY_G],
        seq![KEY_K, KEY_H],
        seq![KEY_G, KEY_H],
        seq![KEY_G],
        seq![KEY_C],
        seq![KEY_Q],
        seq![KEY_K],
        seq![KEY_T],
        seq![KEY_R],
        seq![KEY_H],
        seq![KEY_B],
        seq![KEY_M],
        seq![KEY_V],
        seq![KEY_N],
        seq![KEY_L],
        seq![KEY_X],
        seq![KEY_P],
        seq![KEY_S],
        seq![KEY_D],
        seq![KEY_F | CONSONANT_ALLOW_MASK],
        seq![KEY_W | CONSONANT_ALLOW_MASK],
        seq![KEY_Z | CONSONANT_ALLOW_MASK],
        seq![KEY_J | CONSONANT_ALLOW_MASK],
        seq![KEY_F | END_CONSONANT_MASK],
        seq![KEY_W | END_CONSONANT_MASK],
        seq![KEY_J | END_CONSONANT_MASK]
    ]
}

/// First consonants of a Vietnamese word.
pub fn consonant_table() -> (r: Vec<Vec<u16>>)
    ensures rows_match(r@, spec_consonant_table()),
{
    let r = vec![
        vec![KEY_N, KEY_G, KEY_H],
        vec![KEY_P, KEY_H],
        vec![KEY_T, KEY_H],
        vec![KEY_T, KEY_R],
        vec![KEY_G, KEY_I],
        vec![KEY_C, KEY_H],
        vec![KEY_N, KEY_H],
        vec![KEY_N, KEY_G],
        vec![KEY_K, KEY_H],
        vec![KEY_G, KEY_H],
        vec![KEY_G],
        vec![KEY_C],
        vec![KEY_Q],
        vec![KEY_K],
        vec![KEY_T],
        vec![KEY_R],
        vec![KEY_H],
        vec![KEY_B],
        vec![KEY_M],
        vec![KEY_V],
        vec![KEY_N],
        vec![KEY_L],
        vec![KEY_X],
        vec![KEY_P],
        vec![KEY_S],
        vec![KEY_D],
        vec![KEY_F | CONSONANT_ALLOW_MASK],
        vec![KEY_W | CONSONANT_ALLOW_MASK],
        vec![KEY_Z | CONSONANT_ALLOW_MASK],
        vec![KEY_J | CONSONANT_ALLOW_MASK],
        vec![KEY_F | END_CONSONANT_MASK],
        vec![KEY_W | END_CONSONANT_MASK],
        vec![KEY_J | END_CONSONANT_MASK]
    ];
    proof {
        assert(r@[0]@ == spec_consonant_table()[0]);
        assert(r@[1]@ == spec_consonant_table()[1]);
        assert(r@[2]@ == spec_consonant_table()[2]);
        assert(r@[3]@ == spec_consonant_table()[3]);
        assert(r@[4]@ == spec_consonant_table()[4]);
        assert(r@[5]@ == spec_consonant_table()[5]);
        assert(r@[6]@ == spec_consonant_table()[6]);
        assert(r@[7]@ == spec_consonant_table()[7]);
        assert(r@[8]@ == spec_consonant_table()[8]);
        assert(r@[9]@ == spec_consonant_table()[9]);
        assert(r@[10]@ == spec_consonant_table()[10]);
        assert(r@[11]@ == spec_consonant_table()[11]);
        assert(r@[12]@ == spec_consonant_table()[12]);
        assert(r@[13]@ == spec_consonant_table()[13]);
        assert(r@[14]@ == spec_consonant_table()[14]);
        assert(r@[15]@ == spec_consonant_table()[15]);
        assert(r@[16]@ == spec_consonant_table()[16]);
        assert(r@[17]@ == spec_consonant_table()[17]);
        assert(r@[18]@ == spec_consonant_table()[18]);
        assert(r@[19]@ == spec_consonant_table()[19]);
        assert(r@[20]@ == spec_consonant_table()[20]);
        assert(r@[21]@ == spec_consonant_table()[21]);
        assert(r@[22]@ == spec_consonant_table()[22]);
        assert(r@[23]@ == spec_consonant_table()[23]);
        assert(r@[24]@ == spec_consonant_table()[24]);
        assert(r@[25]@ == spec_consonant_table()[25]);
        assert(r@[26]@ == spec_consonant_table()[26]);
        assert(r@[27]@ == spec_consonant_table()[27]);
        assert(r@[28]@ == spec_consonant_table()[28]);
        assert(r@[29]@ == spec_consonant_table()[29]);
        assert(r@[30]@ == spec_consonant_table()[30]);
        assert(r@[31]@ == spec_consonant_table()[31]);
        assert(r@[32]@ == spec_consonant_table()[32]);
        assert(rows_of(r@) =~= spec_consonant_table());
    }
    r
}

/// Last consonants of a Vietnamese word.
pub open spec fn spec_end_consonant_table() -> Seq<Seq<u16>> {
    seq![
        seq![KEY_T],
        seq![KEY_P],
        seq![KEY_C],
        seq![KEY_N],
        seq![KEY_M],
        seq![KEY_G | END_CONSONANT_MASK],
        seq![KEY_K | END_CONSONANT_MASK],
        seq![KEY_H | END_CONSONANT_MASK],
        seq![KEY_C, KEY_H],
        seq![KEY_N, KEY_H],
        seq![KEY_N, KEY_G]
    ]
}

/// Last consonants of a Vietnamese word.
pub fn end_consonant_table() -> (r: Vec<Vec<u16>>)
    ensures rows_match(r@, spec_end_consonant_table()),
{
    let r = vec![
        vec![KEY_T],
        vec![KEY_P],
        vec![KEY_C],
        vec![KEY_N],
        vec![KEY_M],
        vec![KEY_G | END_CONSONANT_MASK],
        vec![KEY_K | END_CONSONANT_MASK],
        vec![KEY_H | END_CONSONANT_MASK],
        vec![KEY_C, KEY_H],
        vec![KEY_N, KEY_H],
        vec![KEY_N, KEY_G]
    ];
    proof {
        assert(r@[0]@ == spec_end_consonant_table()[0]);
        assert(r@[1]@ == spec_end_consonant_table()[1]);
        assert(r@[2]@ == spec_end_consonant_table()[2]);
        assert(r@[3]@ == spec_end_consonant_table()[3]);
        assert(r@[4]@ == spec_end_consonant_table()[4]);
        assert(r@[5]@ == spec_end_consonant_table()[5]);
        assert(r@[6]@ == spec_end_consonant_table()[6]);
        assert(r@[7]@ == spec_end_consonant_table()[7]);
        assert(r@[8]@ == spec_end_consonant_table()[8]);
        assert(r@[9]@ == spec_end_consonant_table()[9]);
        assert(r@[10]@ == spec_end_consonant_table()[10]);
        assert(rows_of(r@) =~= spec_end_consonant_table());
    }
    r
}

/// Two-letter starts after which a standalone `w` becomes `ư`.
pub open spec fn spec_double_w_allowed() -> Seq<Seq<u16>> {
    seq![
        seq![KEY_T, KEY_R],
        seq![KEY_T, KEY_H],
        seq![KEY_C, KEY_H],
        seq![KEY_N, KEY_H],
        seq![KEY_N, KEY_G],
        seq![KEY_K, KEY_H],
        seq![KEY_G, KEY_I],
        seq![KEY_P, KEY_H],
        seq![KEY_G, KEY_H]
    ]
}

/// Two-letter starts after which a standalone `w` becomes `ư`.
pub fn double_w_allowed() -> (r: Vec<Vec<u16>>)
    ensures rows_match(r@, spec_double_w_allowed()),
{
    let r = vec![
        vec![KEY_T, KEY_R],
        vec![KEY_T, KEY_H],
        vec![KEY_C, KEY_H],
        vec![KEY_N, KEY_H],
        vec![KEY_N, KEY_G],
        vec![KEY_K, KEY_H],
        vec![KEY_G, KEY_I],
        vec![KEY_P, KEY_H],
        vec![KEY_G, KEY_H]
    ];
    proof {
        assert(r@[0]@ == spec_double_w_allowed()[0]);
        assert(r@[1]@ == spec_double_w_allowed()[1]);
        assert(r@[2]@ == spec_double_w_allowed()[2]);
        assert(r@[3]@ == spec_double_w_allowed()[3]);
        assert(r@[4]@ == spec_double_w_allowed()[4]);
        assert(r@[5]@ == spec_double_w_allowed()[5]);
        assert(r@[6]@ == spec_double_w_allowed()[6]);
        assert(r@[7]@ == spec_double_w_allowed()[7]);
        assert(r@[8]@ == spec_double_w_allowed()[8]);
        assert(rows_of(r@) =~= spec_double_w_allowed());
    }
    r
}

/// Vowel combinations starting with `a`; the first element is 1 when an end consonant may follow.
pub open spec fn spec_vowel_combine_a() -> Seq<Seq<u32>> {
    seq![
        seq![0, KEY_A as u32, KEY_I as u32],
        seq![0, KEY_A as u32, KEY_O as u32],
        seq![0, KEY_A as u32, KEY_U as u32],
        seq![0, KEY_A as u32 | TONE_MASK, KEY_U as u32],
        seq![0, KEY_A as u32, KEY_Y as u32],
        seq![0, KEY_A as u32 | TONE_MASK, KEY_Y as u32]
    ]
}

/// Vowel combinations starting with `a`; the first element is 1 when an end consonant may follow.
pub fn vowel_combine_a() -> (r: Vec<Vec<u32>>)
    ensures rows_match(r@, spec_vowel_combine_a()),
{
    let r = vec![
        vec![0, KEY_A as u32, KEY_I as u32],
        vec![0, KEY_A as u32, KEY_O as u32],
        vec![0, KEY_A as u32, KEY_U as u32],
        vec![0, KEY_A as u32 | TONE_MASK, KEY_U as u32],
        vec![0, KEY_A as u32, KEY_Y as u32],
        vec![0, KEY_A as u32 | TONE_MASK, KEY_Y as u32]
    ];
    proof {
        assert(r@[0]@ == spec_vowel_combine_a()[0]);
        assert(r@[1]@ == spec_vowel_combine_a()[1]);
        assert(r@[2]@ == spec_vowel_combine_a()[2]);
        assert(r@[3]@ == spec_vowel_combine_a()[3]);
        assert(r@[4]@ == spec_vowel_combine_a()[4]);
        assert(r@[5]@ == spec_vowel_combine_a()[5]);
        assert(rows_of(r@) =~= spec_vowel_combine_a());
    }
    r
}

/// Vowel combinations starting with `e`; the first element is 1 when an end consonant may follow.
pub open spec fn spec_vowel_combine_e() -> Seq<Seq<u32>> {
    seq![
        seq![0, KEY_E as u32, KEY_O as u32],
        seq![0, KEY_E as u32 | TONE_MASK, KEY_U as u32]
    ]
}

/// Vowel combinations starting with `e`; the first element is 1 when an end consonant may follow.
pub fn vowel_combine_e() -> (r: Vec<Vec<u32>>)
    ensures rows_match(r@, spec_vowel_combine_e()),
{
    let r = vec![
        vec![0, KEY_E as u32, KEY_O as u32],
        vec![0, KEY_E as u32 | TONE_MASK, KEY_U as u32]
    ];
    proof {
        assert(r@[0]@ == spec_vowel_combine_e()[0]);
        assert(r@[1]@ == spec_vowel_combine_e()[1]);
        assert(rows_of(r@) =~= spec_vowel_combine_e());
    }
    r
}

/// Vowel combinations starting with `i`; the first element is 1 when an end consonant may follow.
pub open spec fn spec_vowel_combine_i() -> Seq<Seq<u32>> {
    seq![
        seq![1, KEY_I as u32, KEY_E as u32 | TONE_MASK, KEY_U as u32],
        seq![0, KEY_I as u32, KEY_A as u32],
        seq![1, KEY_I as u32, KEY_E as u32 | TONE_MASK],
        seq![0, KEY_I as u32, KEY_U as u32]
    ]
}

/// Vowel combinations starting with `i`; the first element is 1 when an end consonant may follow.
pub fn vowel_combine_i() -> (r: Vec<Vec<u32>>)
    ensures rows_match(r@, spec_vowel_combine_i()),
{
    let r = vec![
        vec![1, KEY_I as u32, KEY_E as u32 | TONE_MASK, KEY_U as u32],
        vec![0, KEY_I as u32, KEY_A as u32],
        vec![1, KEY_I as u32, KEY_E as u32 | TONE_MASK],
        vec![0, KEY_I as u32, KEY_U as u32]
    ];
    proof {
        assert(r@[0]@ == spec_vowel_combine_i()[0]);
        assert(r@[1]@ == spec_vowel_combine_i()[1]);
        assert(r@[2]@ == spec_vowel_combine_i()[2]);
        assert(r@[3]@ == spec_vowel_combine_i()[3]);
        assert(rows_of(r@) =~= spec_vowel_combine_i());
    }
    r
}

/// Vowel combinations starting with `o`; the first element is 1 when an end consonant may follow.
pub open spec fn spec_vowel_combine_o() -> Seq<Seq<u32>> {
    seq![
        seq![0, KEY_O as u32, KEY_A as u32, KEY_I as u32],
        seq![0, KEY_O as u32, KEY_A as u32, KEY_O as u32],
        seq![0, KEY_O as u32, KEY_A as u32, KEY_Y as u32],
        seq![0, KEY_O as u32, KEY_E as u32, KEY_O as u32],
        seq![1, KEY_O as u32, KEY_A as u32],
        seq![1, KEY_O as u32, KEY_A as u32 | TONEW_MASK],
        seq![1, KEY_O as u32, KEY_E as u32],
        seq![0, KEY_O as u32, KEY_I as u32],
        seq![0, KEY_O as u32 | TONE_MASK, KEY_I as u32],
        seq![0, KEY_O as u32 | TONEW_MASK, KEY_I as u32],
        seq![1, KEY_O as u32, KEY_O as u32],
        seq![1, KEY_O as u32 | TONE_MASK, KEY_O as u32 | TONE_MASK]
    ]
}

/// Vowel combinations starting with `o`; the first element is 1 when an end consonant may follow.
pub fn vowel_combine_o() -> (r: Vec<Vec<u32>>)
    ensures rows_match(r@, spec_vowel_combine_o()),
{
    let r = vec![
        vec![0, KEY_O as u32, KEY_A as u32, KEY_I as u32],
        vec![0, KEY_O as u32, KEY_A as u32, KEY_O as u32],
        vec![0, KEY_O as u32, KEY_A as u32, KEY_Y as u32],
        vec![0, KEY_O as u32, KEY_E as u32, KEY_O as u32],
        vec![1, KEY_O as u32, KEY_A as u32],
        vec![1, KEY_O as u32, KEY_A as u32 | TONEW_MASK],
        vec![1, KEY_O as u32, KEY_E as u32],
        vec![0, KEY_O as u32, KEY_I as u32],
        vec![0, KEY_O as u32 | TONE_MASK, KEY_I as u32],
        vec![0, KEY_O as u32 | TONEW_MASK, KEY_I as u32],
        vec![1, KEY_O as u32, KEY_O as u32],
        vec![1, KEY_O as u32 | TONE_MASK, KEY_O as u32 | TONE_MASK]
    ];
    proof {
        assert(r@[0]@ == spec_vowel_combine_o()[0]);
        assert(r@[1]@ == spec_vowel_combine_o()[1]);
        assert(r@[2]@ == spec_vowel_combine_o()[2]);
        assert(r@[3]@ == spec_vowel_combine_o()[3]);
        assert(r@[4]@ == spec_vowel_combine_o()[4]);
        assert(r@[5]@ == spec_vowel_combine_o()[5]);
        assert(r@[6]@ == spec_vowel_combine_o()[6]);
        assert(r@[7]@ == spec_vowel_combine_o()[7]);
        assert(r@[8]@ == spec_vowel_combine_o()[8]);
        assert(r@[9]@ == spec_vowel_combine_o()[9]);
        assert(r@[10]@ == spec_vowel_combine_o()[10]);
        assert(r@[11]@ == spec_vowel_combine_o()[11]);
        assert(rows_of(r@) =~= spec_vowel_combine_o());
    }
    r
}

/// Vowel combinations starting with `u`; the first element is 1 when an end consonant may follow.
pub open spec fn spec_vowel_combine_u() -> Seq<Seq<u32>> {
    seq![
        seq![0, KEY_U as u32, KEY_Y as u32, KEY_U as u32],
        seq![1, KEY_U as u32, KEY_Y as u32, KEY_E as u32 | TONE_MASK],
        seq![0, KEY_U as u32, KEY_Y as u32, KEY_A as u32],
        seq![0, KEY_U as u32 | TONEW_MASK, KEY_O as u32 | TONEW_MASK, KEY_U as u32],
        seq![0, KEY_U as u32 | TONEW_MASK, KEY_O as u32 | TONEW_MASK, KEY_I as u32],
        seq![0, KEY_U as u32, KEY_O as u32 | TONE_MASK, KEY_I as u32],
        seq![0, KEY_U as u32, KEY_A as u32 | TONE_MASK, KEY_Y as u32],
        seq![1, KEY_U as u32, KEY_A as u32, KEY_O as u32],
        seq![1, KEY_U as u32, KEY_A as u32],
        seq![1, KEY_U as u32, KEY_A as u32 | TONEW_MASK],
        seq![1, KEY_U as u32, KEY_A as u32 | TONE_MASK],
        seq![0, KEY_U as u32 | TONEW_MASK, KEY_A as u32],
        seq![1, KEY_U as u32, KEY_E as u32 | TONE_MASK],
        seq![0, KEY_U as u32, KEY_I as u32],
        seq![0, KEY_U as u32 | TONEW_MASK, KEY_I as u32],
        seq![1, KEY_U as u32, KEY_O as u32],
        seq![1, KEY_U as u32, KEY_O as u32 | TONE_MASK],
        seq![0, KEY_U as u32, KEY_O as u32 | TONEW_MASK],
        seq![1, KEY_U as u32 | TONEW_MASK, KEY_O as u32 | TONEW_MASK],
        seq![0, KEY_U as u32 | TONEW_MASK, KEY_U as u32],
        seq![1, KEY_U as u32, KEY_Y as u32]
    ]
}

/// Vowel combinations starting with `u`; the first element is 1 when an end consonant may follow.
pub fn vowel_combine_u() -> (r: Vec<Vec<u32>>)
    ensures rows_match(r@, spec_vowel_combine_u()),
{
    let r = vec![
        vec![0, KEY_U as u32, KEY_Y as u32, KEY_U as u32],
        vec![1, KEY_U as u32, KEY_Y as u32, KEY_E as u32 | TONE_MASK],
        vec![0, KEY_U as u32, KEY_Y as u32, KEY_A as u32],
        vec![0, KEY_U as u32 | TONEW_MASK, KEY_O as u32 | TONEW_MASK, KEY_U as u32],
        vec![0, KEY_U as u32 | TONEW_MASK, KEY_O as u32 | TONEW_MASK, KEY_I as u32],
        vec![0, KEY_U as u32, KEY_O as u32 | TONE_MASK, KEY_I as u32],
        vec![0, KEY_U as u32, KEY_A as u32 | TONE_MASK, KEY_Y as u32],
        vec![1, KEY_U as u32, KEY_A as u32, KEY_O as u32],
        vec![1, KEY_U as u32, KEY_A as u32],
        vec![1, KEY_U as u32, KEY_A as u32 | TONEW_MASK],
        vec![1, KEY_U as u32, KEY_A as u32 | TONE_MASK],
        vec![0, KEY_U as u32 | TONEW_MASK, KEY_A as u32],
        vec![1, KEY_U as u32, KEY_E as u32 | TONE_MASK],
        vec![0, KEY_U as u32, KEY_I as u32],
        vec![0, KEY_U as u32 | TONEW_MASK, KEY_I as u32],
        vec![1, KEY_U as u32, KEY_O as u32],
        vec![1, KEY_U as u32, KEY_O as u32 | TONE_MASK],
        vec![0, KEY_U as u32, KEY_O as u32 | TONEW_MASK],
        vec![1, KEY_U as u32 | TONEW_MASK, KEY_O as u32 | TONEW_MASK],
        vec![0, KEY_U as u32 | TONEW_MASK, KEY_U as u32],
        vec![1, KEY_U as u32, KEY_Y as u32]
    ];
    proof {
        assert(r@[0]@ == spec_vowel_combine_u()[0]);
        assert(r@[1]@ == spec_vowel_combine_u()[1]);
        assert(r@[2]@ == spec_vowel_combine_u()[2]);
        assert(r@[3]@ == spec_vowel_combine_u()[3]);
        assert(r@[4]@ == spec_vowel_combine_u()[4]);
        assert(r@[5]@ == spec_vowel_combine_u()[5]);
        assert(r@[6]@ == spec_vowel_combine_u()[6]);
        assert(r@[7]@ == spec_vowel_combine_u()[7]);
        assert(r@[8]@ == spec_vowel_combine_u()[8]);
        assert(r@[9]@ == spec_vowel_combine_u()[9]);
        assert(r@[10]@ == spec_vowel_combine_u()[10]);
        assert(r@[11]@ == spec_vowel_combine_u()[11]);
        assert(r@[12]@ == spec_vowel_combine_u()[12]);
        assert(r@[13]@ == spec_vowel_combine_u()[13]);
        assert(r@[14]@ == spec_vowel_combine_u()[14]);
        assert(r@[15]@ == spec_vowel_combine_u()[15]);
        assert(r@[16]@ == spec_vowel_combine_u()[16]);
        assert(r@[17]@ == spec_vowel_combine_u()[17]);
        assert(r@[18]@ == spec_vowel_combine_u()[18]);
        assert(r@[19]@ == spec_vowel_combine_u()[19]);
        assert(r@[20]@ == spec_vowel_combine_u()[20]);
        assert(rows_of(r@) =~= spec_vowel_combine_u());
    }
    r
}

/// Vowel combinations starting with `y`; the first element is 1 when an end consonant may follow.
pub open spec fn spec_vowel_combine_y() -> Seq<Seq<u32>> {
    seq![
        seq![0, KEY_Y as u32, KEY_E as u32 | TONE_MASK, KEY_U as u32],
        seq![1, KEY_Y as u32, KEY_E as u32 | TONE_MASK]
    ]
}

/// Vowel combinations starting with `y`; the first element is 1 when an end consonant may follow.
pub fn vowel_combine_y() -> (r: Vec<Vec<u32>>)
    ensures rows_match(r@, spec_vowel_combine_y()),
{
    let r = vec![
        vec![0, KEY_Y as u32, KEY_E as u32 | TONE_MASK, KEY_U as u32],
        vec![1, KEY_Y as u32, KEY_E as u32 | TONE_MASK]
    ];
    proof {
        assert(r@[0]@ == spec_vowel_combine_y()[0]);
        assert(r@[1]@ == spec_vowel_combine_y()[1]);
        assert(rows_of(r@) =~= spec_vowel_combine_y());
    }
    r
}

/// `_vowel[key]`: the vowel sequences a tone key may complete.
pub open spec fn spec_vowel_table(key: u16) -> Seq<Seq<u16>> {
    if key == KEY_A { spec_vowel_a() }
    else if key == KEY_O { spec_vowel_o() }
    else if key == KEY_E { spec_vowel_e() }
    else if key == KEY_W { spec_vowel_w() }
    else { Seq::empty() }
}

/// Lookup of the vowel sequences for a tone key (a, o, e, w); empty for other keys.
pub fn vowel_table(key: u16) -> (r: Vec<Vec<u16>>)
    ensures rows_match(r@, spec_vowel_table(key)),
{
    if key == KEY_A { vowel_a() }
    else if key == KEY_O { vowel_o() }
    else if key == KEY_E { vowel_e() }
    else if key == KEY_W { vowel_w() }
    else { empty_rows() }
}

/// `_vowelCombine[key]`: spell-checking vowel combinations by first vowel.
pub open spec fn spec_vowel_combine_table(key: u16) -> Seq<Seq<u32>> {
    if key == KEY_A { spec_vowel_combine_a() }
    else if key == KEY_E { spec_vowel_combine_e() }
    else if key == KEY_I { spec_vowel_combine_i() }
    else if key == KEY_O { spec_vowel_combine_o() }
    else if key == KEY_U { spec_vowel_combine_u() }
    else if key == KEY_Y { spec_vowel_combine_y() }
    else { Seq::empty() }
}

/// Lookup of the vowel combinations that start with a vowel; empty for consonants.
pub fn vowel_combine_table(key: u16) -> (r: Vec<Vec<u32>>)
    ensures rows_match(r@, spec_vowel_combine_table(key)),
{
    if key == KEY_A { vowel_combine_a() }
    else if key == KEY_E { vowel_combine_e() }
    else if key == KEY_I { vowel_combine_i() }
    else if key == KEY_O { vowel_combine_o() }
    else if key == KEY_U { vowel_combine_u() }
    else if key == KEY_Y { vowel_combine_y() }
    else { empty_rows() }
}

/// `_vowelForMark[key]`: the word tails on which a mark may be placed.
pub open spec fn spec_vowel_for_mark_table(key: u16) -> Seq<Seq<u16>> {
    if key == KEY_A { spec_vowel_for_mark_a() }
    else if key == KEY_O { spec_vowel_for_mark_o() }
    else if key == KEY_E { spec_vowel_for_mark_e() }
    else if key == KEY_I { spec_vowel_for_mark_i() }
    else if key == KEY_U { spec_vowel_for_mark_u() }
    else if key == KEY_Y { spec_vowel_for_mark_y() }
    else { Seq::empty() }
}

/// Lookup of the mark-accepting word tails by first vowel; empty for consonants.
pub fn vowel_for_mark_table(key: u16) -> (r: Vec<Vec<u16>>)
    ensures rows_match(r@, spec_vowel_for_mark_table(key)),
{
    if key == KEY_A { vowel_for_mark_a() }
    else if key == KEY_O { vowel_for_mark_o() }
    else if key == KEY_E { vowel_for_mark_e() }
    else if key == KEY_I { vowel_for_mark_i() }
    else if key == KEY_U { vowel_for_mark_u() }
    else if key == KEY_Y { vowel_for_mark_y() }
    else { empty_rows() }
}

/// First letters after which a standalone `w` stays a plain `w`.
pub open spec fn spec_standalone_w_bad() -> Seq<u16> {
    seq![KEY_W, KEY_E, KEY_Y, KEY_F, KEY_J, KEY_K, KEY_Z]
}

/// First letters after which a standalone `w` stays a plain `w`.
pub fn standalone_w_bad() -> (r: Vec<u16>)
    ensures r@ == spec_standalone_w_bad(),
{
    vec![KEY_W, KEY_E, KEY_Y, KEY_F, KEY_J, KEY_K, KEY_Z]
}

/// Quick start consonant: f -> ph, j -> gi, w -> qu.
pub open spec fn spec_quick_start_consonant(key: u16) -> Option<Seq<u16>> {
    if key == KEY_F { Some(seq![KEY_P, KEY_H]) }
    else if key == KEY_J { Some(seq![KEY_G, KEY_I]) }
    else if key == KEY_W { Some(seq![KEY_Q, KEY_U]) }
    else { None }
}

/// Lookup of the quick start consonant (f -> ph, j -> gi, w -> qu).
pub fn quick_start_consonant(key: u16) -> (r: Option<Vec<u16>>)
    ensures opt_seq(r) == spec_quick_start_consonant(key),
{
    if key == KEY_F { Some(vec![KEY_P, KEY_H]) }
    else if key == KEY_J { Some(vec![KEY_G, KEY_I]) }
    else if key == KEY_W { Some(vec![KEY_Q, KEY_U]) }
    else { None }
}

/// Quick end consonant: g -> ng, h -> nh, k -> ch.
pub open spec fn spec_quick_end_consonant(key: u16) -> Option<Seq<u16>> {
    if key == KEY_G { Some(seq![KEY_N, KEY_G]) }
    else if key == KEY_H { Some(seq![KEY_N, KEY_H]) }
    else if key == KEY_K { Some(seq![KEY_C, KEY_H]) }
    else { None }
}

/// Lookup of the quick end consonant (g -> ng, h -> nh, k -> ch).
pub fn quick_end_consonant(key: u16) -> (r: Option<Vec<u16>>)
    ensures opt_seq(r) == spec_quick_end_consonant(key),
{
    if key == KEY_G { Some(vec![KEY_N, KEY_G]) }
    else if key == KEY_H { Some(vec![KEY_N, KEY_H]) }
    else if key == KEY_K { Some(vec![KEY_C, KEY_H]) }
    else { None }
}

/// The keys that quick telex doubles: c, g, k, n, q, p, t, u.
pub open spec fn spec_is_quick_telex_key(code: u16) -> bool {
    code == KEY_C || code == KEY_G || code == KEY_K || code == KEY_N || code == KEY_Q
        || code == KEY_P || code == KEY_T || code == KEY_U
}

/// Whether a key is one of the quick telex keys c, g, k, n, q, p, t, u.
pub fn is_quick_telex_key(code: u16) -> (r: bool)
    ensures r == spec_is_quick_telex_key(code),
{
    code == KEY_C || code == KEY_G || code == KEY_K || code == KEY_N || code == KEY_Q
        || code == KEY_P || code == KEY_T || code == KEY_U
}

/// Quick telex: cc = ch, gg = gi, kk = kh, nn = ng, qq = qu, pp = ph, tt = th, uu = uu.
pub open spec fn spec_quick_telex(key: u16) -> Option<Seq<u16>> {
    if key == KEY_C { Some(seq![KEY_C, KEY_H]) }
    else if key == KEY_G { Some(seq![KEY_G, KEY_I]) }
    else if key == KEY_K { Some(seq![KEY_K, KEY_H]) }
    else if key == KEY_N { Some(seq![KEY_N, KEY_G]) }
    else if key == KEY_Q { Some(seq![KEY_Q, KEY_U]) }
    else if key == KEY_P { Some(seq![KEY_P, KEY_H]) }
    else if key == KEY_T { Some(seq![KEY_T, KEY_H]) }
    else if key == KEY_U { Some(seq![KEY_U, KEY_U]) }
    else { None }
}

/// Lookup of the quick telex expansion of a doubled key.
pub fn quick_telex(key: u16) -> (r: Option<Vec<u16>>)
    ensures opt_seq(r) == spec_quick_telex(key),
{
    if key == KEY_C { Some(vec![KEY_C, KEY_H]) }
    else if key == KEY_G { Some(vec![KEY_G, KEY_I]) }
    else if key == KEY_K { Some(vec![KEY_K, KEY_H]) }
    else if key == KEY_N { Some(vec![KEY_N, KEY_G]) }
    else if key == KEY_Q { Some(vec![KEY_Q, KEY_U]) }
    else if key == KEY_P { Some(vec![KEY_P, KEY_H]) }
    else if key == KEY_T { Some(vec![KEY_T, KEY_H]) }
    else if key == KEY_U { Some(vec![KEY_U, KEY_U]) }
    else { None }
}

/// Number of code tables.
pub const CODE_TABLE_COUNT: usize = 5;

/// `_codeTable[table][key]`: 0 Unicode, 1 TCVN3, 2 VNI Windows, 3 Unicode compound, 4 CP 1258.
pub open spec fn spec_code_table(table: int, key: u32) -> Option<Seq<u16>> {
    if table == 0 { spec_code_table_0(key) }
    else if table == 1 { spec_code_table_1(key) }
    else if table == 2 { spec_code_table_2(key) }
    else if table == 3 { spec_code_table_3(key) }
    else if table == 4 { spec_code_table_4(key) }
    else { None }
}

/// Lookup of the characters of a key (with tone flags) in one of the five code tables.
pub fn code_table(table: usize, key: u32) -> (r: Option<Vec<u16>>)
    ensures opt_seq(r) == spec_code_table(table as int, key),
{
    if table == 0 { code_table_0(key) }
    else if table == 1 { code_table_1(key) }
    else if table == 2 { code_table_2(key) }
    else if table == 3 { code_table_3(key) }
    else if table == 4 { code_table_4(key) }
    else { None }
}

/// The keys that have an entry in every code table, in table order.
pub open spec fn spec_code_table_keys() -> Seq<u32> {
    seq![KEY_A as u32, KEY_O as u32, KEY_U as u32, KEY_E as u32, KEY_D as u32,
        KEY_A as u32 | TONE_MASK, KEY_A as u32 | TONEW_MASK, KEY_O as u32 | TONE_MASK,
        KEY_O as u32 | TONEW_MASK, KEY_U as u32 | TONEW_MASK, KEY_E as u32 | TONE_MASK,
        KEY_I as u32, KEY_Y as u32]
}

/// The keys that have an entry in every code table, in table order.
pub fn code_table_keys() -> (r: Vec<u32>)
    ensures r@ == spec_code_table_keys(),
{
    vec![KEY_A as u32, KEY_O as u32, KEY_U as u32, KEY_E as u32, KEY_D as u32,
        KEY_A as u32 | TONE_MASK, KEY_A as u32 | TONEW_MASK, KEY_O as u32 | TONE_MASK,
        KEY_O as u32 | TONEW_MASK, KEY_U as u32 | TONEW_MASK, KEY_E as u32 | TONE_MASK,
        KEY_I as u32, KEY_Y as u32]
}

/// Unicode combining marks, in mark order: sắc, huyền, hỏi, ngã, nặng.
pub open spec fn spec_unicode_compound_mark() -> Seq<u16> {
    seq![0x0301u16, 0x0300, 0x0309, 0x0303, 0x0323]
}

/// Unicode combining marks, in mark order: sắc, huyền, hỏi, ngã, nặng.
pub fn unicode_compound_mark() -> (r: Vec<u16>)
    ensures r@ == spec_unicode_compound_mark(),
{
    vec![0x0301u16, 0x0300, 0x0309, 0x0303, 0x0323]
}

/// Code table 0.
pub open spec fn spec_code_table_0(key: u32) -> Option<Seq<u16>> {
    if key == KEY_A as u32 { Some(seq![0x00C2u16, 0x00E2, 0x0102, 0x0103, 0x00C1, 0x00E1, 0x00C0, 0x00E0, 0x1EA2, 0x1EA3, 0x00C3, 0x00E3, 0x1EA0, 0x1EA1]) }
    else if key == KEY_O as u32 { Some(seq![0x00D4u16, 0x00F4, 0x01A0, 0x01A1, 0x00D3, 0x00F3, 0x00D2, 0x00F2, 0x1ECE, 0x1ECF, 0x00D5, 0x00F5, 0x1ECC, 0x1ECD]) }
    else if key == KEY_U as u32 { Some(seq![0x0000u16, 0x0000, 0x01AF, 0x01B0, 0x00DA, 0x00FA, 0x00D9, 0x00F9, 0x1EE6, 0x1EE7, 0x0168, 0x0169, 0x1EE4, 0x1EE5]) }
    else if key == KEY_E as u32 { Some(seq![0x00CAu16, 0x00EA, 0x0000, 0x0000, 0x00C9, 0x00E9, 0x00C8, 0x00E8, 0x1EBA, 0x1EBB, 0x1EBC, 0x1EBD, 0x1EB8, 0x1EB9]) }
    else if key == KEY_D as u32 { Some(seq![0x0110u16, 0x0111]) }
    else if key == KEY_A as u32 | TONE_MASK { Some(seq![0x1EA4u16, 0x1EA5, 0x1EA6, 0x1EA7, 0x1EA8, 0x1EA9, 0x1EAA, 0x1EAB, 0x1EAC, 0x1EAD]) }
    else if key == KEY_A as u32 | TONEW_MASK { Some(seq![0x1EAEu16, 0x1EAF, 0x1EB0, 0x1EB1, 0x1EB2, 0x1EB3, 0x1EB4, 0x1EB5, 0x1EB6, 0x1EB7]) }
    else if key == KEY_O as u32 | TONE_MASK { Some(seq![0x1ED0u16, 0x1ED1, 0x1ED2, 0x1ED3, 0x1ED4, 0x1ED5, 0x1ED6, 0x1ED7, 0x1ED8, 0x1ED9]) }
    else if key == KEY_O as u32 | TONEW_MASK { Some(seq![0x1EDAu16, 0x1EDB, 0x1EDC, 0x1EDD, 0x1EDE, 0x1EDF, 0x1EE0, 0x1EE1, 0x1EE2, 0x1EE3]) }
    else if key == KEY_U as u32 | TONEW_MASK { Some(seq![0x1EE8u16, 0x1EE9, 0x1EEA, 0x1EEB, 0x1EEC, 0x1EED, 0x1EEE, 0x1EEF, 0x1EF0, 0x1EF1]) }
    else if key == KEY_E as u32 | TONE_MASK { Some(seq![0x1EBEu16, 0x1EBF, 0x1EC0, 0x1EC1, 0x1EC2, 0x1EC3, 0x1EC4, 0x1EC5, 0x1EC6, 0x1EC7]) }
    else if key == KEY_I as u32 { Some(seq![0x00CDu16, 0x00ED, 0x00CC, 0x00EC, 0x1EC8, 0x1EC9, 0x0128, 0x0129, 0x1ECA, 0x1ECB]) }
    else if key == KEY_Y as u32 { Some(seq![0x00DDu16, 0x00FD, 0x1EF2, 0x1EF3, 0x1EF6, 0x1EF7, 0x1EF8, 0x1EF9, 0x1EF4, 0x1EF5]) }
    else { None }
}

/// Code table 1.
pub open spec fn spec_code_table_1(key: u32) -> Option<Seq<u16>> {
    if key == KEY_A as u32 { Some(seq![0xA2u16, 0xA9, 0xA1, 0xA8, 0xB8, 0xB8, 0xB5, 0xB5, 0xB6, 0xB6, 0xB7, 0xB7, 0xB9, 0xB9]) }
    else if key == KEY_O as u32 { Some(seq![0xA4u16, 0xAB, 0xA5, 0xAC, 0xE3, 0xE3, 0xDF, 0xDF, 0xE1, 0xE1, 0xE2, 0xE2, 0xE4, 0xE4]) }
    else if key == KEY_U as u32 { Some(seq![0x00u16, 0x00, 0xA6, 0xAD, 0xF3, 0xF3, 0xEF, 0xEF, 0xF1, 0xF1, 0xF2, 0xF2, 0xF4, 0xF4]) }
    else if key == KEY_E as u32 { Some(seq![0xA3u16, 0xAA, 0x00, 0x00, 0xD0, 0xD0, 0xCC, 0xCC, 0xCE, 0xCE, 0xCF, 0xCF, 0xD1, 0xD1]) }
    else if key == KEY_D as u32 { Some(seq![0xA7u16, 0xAE]) }
    else if key == KEY_A as u32 | TONE_MASK { Some(seq![0xCAu16, 0xCA, 0xC7, 0xC7, 0xC8, 0xC8, 0xC9, 0xC9, 0xCB, 0xCB]) }
    else if key == KEY_A as u32 | TONEW_MASK { Some(seq![0xBEu16, 0xBE, 0xBB, 0xBB, 0xBC, 0xBC, 0xBD, 0xBD, 0xC6, 0xC6]) }
    else if key == KEY_O as u32 | TONE_MASK { Some(seq![0xE8u16, 0xE8, 0xE5, 0xE5, 0xE6, 0xE6, 0xE7, 0xE7, 0xE9, 0xE9]) }
    else if key == KEY_O as u32 | TONEW_MASK { Some(seq![0xEDu16, 0xED, 0xEA, 0xEA, 0xEB, 0xEB, 0xEC, 0xEC, 0xEE, 0xEE]) }
    else if key == KEY_U as u32 | TONEW_MASK { Some(seq![0xF8u16, 0xF8, 0xF5, 0xF5, 0xF6, 0xF6, 0xF7, 0xF7, 0xF9, 0xF9]) }
    else if key == KEY_E as u32 | TONE_MASK { Some(seq![0xD5u16, 0xD5, 0xD2, 0xD2, 0xD3, 0xD3, 0xD4, 0xD4, 0xD6, 0xD6]) }
    else if key == KEY_I as u32 { Some(seq![0xDDu16, 0xDD, 0xD7, 0xD7, 0xD8, 0xD8, 0xDC, 0xDC, 0xDE, 0xDE]) }
    else if key == KEY_Y as u32 { Some(seq![0xFDu16, 0xFD, 0xFA, 0xFA, 0xFB, 0xFB, 0xFC, 0xFC, 0xFE, 0xFE]) }
    else { None }
}

/// Code table 2.
pub open spec fn spec_code_table_2(key: u32) -> Option<Seq<u16>> {
    if key == KEY_A as u32 { Some(seq![0xC241u16, 0xE261, 0xCA41, 0xEA61, 0xD941, 0xF961, 0xD841, 0xF861, 0xDB41, 0xFB61, 0xD541, 0xF561, 0xCF41, 0xEF61]) }
    else if key == KEY_O as u32 { Some(seq![0xC24Fu16, 0xE26F, 0x00D4, 0x00F4, 0xD94F, 0xF96F, 0xD84F, 0xF86F, 0xDB4F, 0xFB6F, 0xD54F, 0xF56F, 0xCF4F, 0xEF6F]) }
    else if key == KEY_U as u32 { Some(seq![0x0000u16, 0x0000, 0x00D6, 0x00F6, 0xD955, 0xF975, 0xD855, 0xF875, 0xDB55, 0xFB75, 0xD555, 0xF575, 0xCF55, 0xEF75]) }
    else if key == KEY_E as u32 { Some(seq![0xC245u16, 0xE265, 0x0000, 0x0000, 0xD945, 0xF965, 0xD845, 0xF865, 0xDB45, 0xFB65, 0xD545, 0xF565, 0xCF45, 0xEF65]) }
    else if key == KEY_D as u32 { Some(seq![0x00D1u16, 0x00F1]) }
    else if key == KEY_A as u32 | TONE_MASK { Some(seq![0xC141u16, 0xE161, 0xC041, 0xE061, 0xC541, 0xE561, 0xC341, 0xE361, 0xC441, 0xE461]) }
    else if key == KEY_A as u32 | TONEW_MASK { Some(seq![0xC941u16, 0xE961, 0xC841, 0xE861, 0xDA41, 0xFA61, 0xDC41, 0xFC61, 0xCB41, 0xEB61]) }
    else if key == KEY_O as u32 | TONE_MASK { Some(seq![0xC14Fu16, 0xE16F, 0xC04F, 0xE06F, 0xC54F, 0xE56F, 0xC34F, 0xE36F, 0xC44F, 0xE46F]) }
    else if key == KEY_O as u32 | TONEW_MASK { Some(seq![0xD9D4u16, 0xF9F4, 0xD8D4, 0xF8F4, 0xDBD4, 0xFBF4, 0xD5D4, 0xF5F4, 0xCFD4, 0xEFF4]) }
    else if key == KEY_U as u32 | TONEW_MASK { Some(seq![0xD9D6u16, 0xF9F6, 0xD8D6, 0xF8F6, 0xDBD6, 0xFBF6, 0xD5D6, 0xF5F6, 0xCFD6, 0xEFF6]) }
    else if key == KEY_E as u32 | TONE_MASK { Some(seq![0xC145u16, 0xE165, 0xC045, 0xE065, 0xC545, 0xE565, 0xC345, 0xE365, 0xC445, 0xE465]) }
    else if key == KEY_I as u32 { Some(seq![0x00CDu16, 0x00ED, 0x00CC, 0x00EC, 0x00C6, 0x00E6, 0x00D3, 0x00F3, 0x00D2, 0x00F2]) }
    else if key == KEY_Y as u32 { Some(seq![0xD959u16, 0xF979, 0xD859, 0xF879, 0xDB59, 0xFB79, 0xD559, 0xF579, 0x00CE, 0x00EE]) }
    else { None }
}

/// Code table 3.
pub open spec fn spec_code_table_3(key: u32) -> Option<Seq<u16>> {
    if key == KEY_A as u32 { Some(seq![0x00C2u16, 0x00E2, 0x0102, 0x0103, 0x2041, 0x2061, 0x4041, 0x4061, 0x6041, 0x6061, 0x8041, 0x8061, 0xA041, 0xA061]) }
    else if key == KEY_O as u32 { Some(seq![0x00D4u16, 0x00F4, 0x01A0, 0x01A1, 0x204F, 0x206F, 0x404F, 0x406F, 0x604F, 0x606F, 0x804F, 0x806F, 0xA04F, 0xA06F]) }
    else if key == KEY_U as u32 { Some(seq![0x0000u16, 0x0000, 0x01AF, 0x01B0, 0x2055, 0x2075, 0x4055, 0x4075, 0x6055, 0x6075, 0x8055, 0x8075, 0xA055, 0xA075]) }
    else if key == KEY_E as u32 { Some(seq![0x00CAu16, 0x00EA, 0x0000, 0x0000, 0x2045, 0x2065, 0x4045, 0x4065, 0x6045, 0x6065, 0x8045, 0x8065, 0xA045, 0xA065]) }
    else if key == KEY_D as u32 { Some(seq![0x0110u16, 0x0111]) }
    else if key == KEY_A as u32 | TONE_MASK { Some(seq![0x20C2u16, 0x20E2, 0x40C2, 0x40E2, 0x60C2, 0x60E2, 0x80C2, 0x80E2, 0xA0C2, 0xA0E2]) }
    else if key == KEY_A as u32 | TONEW_MASK { Some(seq![0x2102u16, 0x2103, 0x4102, 0x4103, 0x6102, 0x6103, 0x8102, 0x8103, 0xA102, 0xA103]) }
    else if key == KEY_O as u32 | TONE_MASK { Some(seq![0x20D4u16, 0x20F4, 0x40D4, 0x40F4, 0x60D4, 0x60F4, 0x80D4, 0x80F4, 0xA0D4, 0xA0F4]) }
    else if key == KEY_O as u32 | TONEW_MASK { Some(seq![0x21A0u16, 0x21A1, 0x41A0, 0x41A1, 0x61A0, 0x61A1, 0x81A0, 0x81A1, 0xA1A0, 0xA1A1]) }
    else if key == KEY_U as u32 | TONEW_MASK { Some(seq![0x21AFu16, 0x21B0, 0x41AF, 0x41B0, 0x61AF, 0x61B0, 0x81AF, 0x81B0, 0xA1AF, 0xA1B0]) }
    else if key == KEY_E as u32 | TONE_MASK { Some(seq![0x20CAu16, 0x20EA, 0x40CA, 0x40EA, 0x60CA, 0x60EA, 0x80CA, 0x80EA, 0xA0CA, 0xA0EA]) }
    else if key == KEY_I as u32 { Some(seq![0x2049u16, 0x2069, 0x4049, 0x4069, 0x6049, 0x6069, 0x8049, 0x8069, 0xA049, 0xA069]) }
    else if key == KEY_Y as u32 { Some(seq![0x2059u16, 0x2079, 0x4059, 0x4079, 0x6059, 0x6079, 0x8059, 0x8079, 0xA059, 0xA079]) }
    else { None }
}

/// Code table 4.
pub open spec fn spec_code_table_4(key: u32) -> Option<Seq<u16>> {
    if key == KEY_A as u32 { Some(seq![0x00C2u16, 0x00E2, 0x00C3, 0x00E3, 0xEC41, 0xEC61, 0xCC41, 0xCC61, 0xD241, 0xD261, 0xDE41, 0xDE61, 0xF241, 0xF261]) }
    else if key == KEY_O as u32 { Some(seq![0x00D4u16, 0x00F4, 0x00D5, 0x00F5, 0xEC4F, 0xEC6F, 0xCC4F, 0xCC6F, 0xD24F, 0xD26F, 0xDE4F, 0xDE6F, 0xF24F, 0xF26F]) }
    else if key == KEY_U as u32 { Some(seq![0x0000u16, 0x0000, 0x00DD, 0x00FD, 0xEC55, 0xEC75, 0xCC55, 0xCC75, 0xD255, 0xD275, 0xDE55, 0xDE75, 0xF255, 0xF275]) }
    else if key == KEY_E as u32 { Some(seq![0x00CAu16, 0x00EA, 0x0000, 0x0000, 0xEC45, 0xEC65, 0xCC45, 0xCC65, 0xD245, 0xD265, 0xDE45, 0xDE65, 0xF245, 0xF265]) }
    else if key == KEY_D as u32 { Some(seq![0x00D0u16, 0x00F0]) }
    else if key == KEY_A as u32 | TONE_MASK { Some(seq![0xECC2u16, 0xECE2, 0xCCC2, 0xCCE2, 0xD2C2, 0xD2E2, 0xDEC2, 0xDEE2, 0xF2C2, 0xF2E2]) }
    else if key == KEY_A as u32 | TONEW_MASK { Some(seq![0xECC3u16, 0xECE3, 0xCCC3, 0xCCE3, 0xD2C3, 0xD2E3, 0xDEC3, 0xDEE3, 0xF2C3, 0xF2E3]) }
    else if key == KEY_O as u32 | TONE_MASK { Some(seq![0xECD4u16, 0xECF4, 0xCCD4, 0xCCF4, 0xD2D4, 0xD2F4, 0xDED4, 0xDEF4, 0xF2D4, 0xF2F4]) }
    else if key == KEY_O as u32 | TONEW_MASK { Some(seq![0xECD5u16, 0xECF5, 0xCCD5, 0xCCF5, 0xD2D5, 0xD2F5, 0xDED5, 0xDEF5, 0xF2D5, 0xF2F5]) }
    else if key == KEY_U as u32 | TONEW_MASK { Some(seq![0xECDDu16, 0xECFD, 0xCCDD, 0xCCFD, 0xD2DD, 0xD2FD, 0xDEDD, 0xDEFD, 0xF2DD, 0xF2FD]) }
    else if key == KEY_E as u32 | TONE_MASK { Some(seq![0xECCAu16, 0xECEA, 0xCCCA, 0xCCEA, 0xD2CA, 0xD2EA, 0xDECA, 0xDEEA, 0xF2CA, 0xF2EA]) }
    else if key == KEY_I as u32 { Some(seq![0xEC49u16, 0xEC69, 0xCC49, 0xCC69, 0xD249, 0xD269, 0xDE49, 0xDE69, 0xF249, 0xF269]) }
    else if key == KEY_Y as u32 { Some(seq![0xEC59u16, 0xEC79, 0xCC59, 0xCC79, 0xD259, 0xD279, 0xDE59, 0xDE79, 0xF259, 0xF279]) }
    else { None }
}

fn code_table_0(key: u32) -> (r: Option<Vec<u16>>)
    ensures opt_seq(r) == spec_code_table_0(key),
{
    if key == KEY_A as u32 { Some(vec![0x00C2u16, 0x00E2, 0x0102, 0x0103, 0x00C1, 0x00E1, 0x00C0, 0x00E0, 0x1EA2, 0x1EA3, 0x00C3, 0x00E3, 0x1EA0, 0x1EA1]) }
    else if key == KEY_O as u32 { Some(vec![0x00D4u16, 0x00F4, 0x01A0, 0x01A1, 0x00D3, 0x00F3, 0x00D2, 0x00F2, 0x1ECE, 0x1ECF, 0x00D5, 0x00F5, 0x1ECC, 0x1ECD]) }
    else if key == KEY_U as u32 { Some(vec![0x0000u16, 0x0000, 0x01AF, 0x01B0, 0x00DA, 0x00FA, 0x00D9, 0x00F9, 0x1EE6, 0x1EE7, 0x0168, 0x0169, 0x1EE4, 0x1EE5]) }
    else if key == KEY_E as u32 { Some(vec![0x00CAu16, 0x00EA, 0x0000, 0x0000, 0x00C9, 0x00E9, 0x00C8, 0x00E8, 0x1EBA, 0x1EBB, 0x1EBC, 0x1EBD, 0x1EB8, 0x1EB9]) }
    else if key == KEY_D as u32 { Some(vec![0x0110u16, 0x0111]) }
    else if key == KEY_A as u32 | TONE_MASK { Some(vec![0x1EA4u16, 0x1EA5, 0x1EA6, 0x1EA7, 0x1EA8, 0x1EA9, 0x1EAA, 0x1EAB, 0x1EAC, 0x1EAD]) }
    else if key == KEY_A as u32 | TONEW_MASK { Some(vec![0x1EAEu16, 0x1EAF, 0x1EB0, 0x1EB1, 0x1EB2, 0x1EB3, 0x1EB4, 0x1EB5, 0x1EB6, 0x1EB7]) }
    else if key == KEY_O as u32 | TONE_MASK { Some(vec![0x1ED0u16, 0x1ED1, 0x1ED2, 0x1ED3, 0x1ED4, 0x1ED5, 0x1ED6, 0x1ED7, 0x1ED8, 0x1ED9]) }
    else if key == KEY_O as u32 | TONEW_MASK { Some(vec![0x1EDAu16, 0x1EDB, 0x1EDC, 0x1EDD, 0x1EDE, 0x1EDF, 0x1EE0, 0x1EE1, 0x1EE2, 0x1EE3]) }
    else if key == KEY_U as u32 | TONEW_MASK { Some(vec![0x1EE8u16, 0x1EE9, 0x1EEA, 0x1EEB, 0x1EEC, 0x1EED, 0x1EEE, 0x1EEF, 0x1EF0, 0x1EF1]) }
    else if key == KEY_E as u32 | TONE_MASK { Some(vec![0x1EBEu16, 0x1EBF, 0x1EC0, 0x1EC1, 0x1EC2, 0x1EC3, 0x1EC4, 0x1EC5, 0x1EC6, 0x1EC7]) }
    else if key == KEY_I as u32 { Some(vec![0x00CDu16, 0x00ED, 0x00CC, 0x00EC, 0x1EC8, 0x1EC9, 0x0128, 0x0129, 0x1ECA, 0x1ECB]) }
    else if key == KEY_Y as u32 { Some(vec![0x00DDu16, 0x00FD, 0x1EF2, 0x1EF3, 0x1EF6, 0x1EF7, 0x1EF8, 0x1EF9, 0x1EF4, 0x1EF5]) }
    else { None }
}

fn code_table_1(key: u32) -> (r: Option<Vec<u16>>)
    ensures opt_seq(r) == spec_code_table_1(key),
{
    if key == KEY_A as u32 { Some(vec![0xA2u16, 0xA9, 0xA1, 0xA8, 0xB8, 0xB8, 0xB5, 0xB5, 0xB6, 0xB6, 0xB7, 0xB7, 0xB9, 0xB9]) }
    else if key == KEY_O as u32 { Some(vec![0xA4u16, 0xAB, 0xA5, 0xAC, 0xE3, 0xE3, 0xDF, 0xDF, 0xE1, 0xE1, 0xE2, 0xE2, 0xE4, 0xE4]) }
    else if key == KEY_U as u32 { Some(vec![0x00u16, 0x00, 0xA6, 0xAD, 0xF3, 0xF3, 0xEF, 0xEF, 0xF1, 0xF1, 0xF2, 0xF2, 0xF4, 0xF4]) }
    else if key == KEY_E as u32 { Some(vec![0xA3u16, 0xAA, 0x00, 0x00, 0xD0, 0xD0, 0xCC, 0xCC, 0xCE, 0xCE, 0xCF, 0xCF, 0xD1, 0xD1]) }
    else if key == KEY_D as u32 { Some(vec![0xA7u16, 0xAE]) }
    else if key == KEY_A as u32 | TONE_MASK { Some(vec![0xCAu16, 0xCA, 0xC7, 0xC7, 0xC8, 0xC8, 0xC9, 0xC9, 0xCB, 0xCB]) }
    else if key == KEY_A as u32 | TONEW_MASK { Some(vec![0xBEu16, 0xBE, 0xBB, 0xBB, 0xBC, 0xBC, 0xBD, 0xBD, 0xC6, 0xC6]) }
    else if key == KEY_O as u32 | TONE_MASK { Some(vec![0xE8u16, 0xE8, 0xE5, 0xE5, 0xE6, 0xE6, 0xE7, 0xE7, 0xE9, 0xE9]) }
    else if key == KEY_O as u32 | TONEW_MASK { Some(vec![0xEDu16, 0xED, 0xEA, 0xEA, 0xEB, 0xEB, 0xEC, 0xEC, 0xEE, 0xEE]) }
    else if key == KEY_U as u32 | TONEW_MASK { Some(vec![0xF8u16, 0xF8, 0xF5, 0xF5, 0xF6, 0xF6, 0xF7, 0xF7, 0xF9, 0xF9]) }
    else if key == KEY_E as u32 | TONE_MASK { Some(vec![0xD5u16, 0xD5, 0xD2, 0xD2, 0xD3, 0xD3, 0xD4, 0xD4, 0xD6, 0xD6]) }
    else if key == KEY_I as u32 { Some(vec![0xDDu16, 0xDD, 0xD7, 0xD7, 0xD8, 0xD8, 0xDC, 0xDC, 0xDE, 0xDE]) }
    else if key == KEY_Y as u32 { Some(vec![0xFDu16, 0xFD, 0xFA, 0xFA, 0xFB, 0xFB, 0xFC, 0xFC, 0xFE, 0xFE]) }
    else { None }
}

fn code_table_2(key: u32) -> (r: Option<Vec<u16>>)
    ensures opt_seq(r) == spec_code_table_2(key),
{
    if key == KEY_A as u32 { Some(vec![0xC241u16, 0xE261, 0xCA41, 0xEA61, 0xD941, 0xF961, 0xD841, 0xF861, 0xDB41, 0xFB61, 0xD541, 0xF561, 0xCF41, 0xEF61]) }
    else if key == KEY_O as u32 { Some(vec![0xC24Fu16, 0xE26F, 0x00D4, 0x00F4, 0xD94F, 0xF96F, 0xD84F, 0xF86F, 0xDB4F, 0xFB6F, 0xD54F, 0xF56F, 0xCF4F, 0xEF6F]) }
    else if key == KEY_U as u32 { Some(vec![0x0000u16, 0x0000, 0x00D6, 0x00F6, 0xD955, 0xF975, 0xD855, 0xF875, 0xDB55, 0xFB75, 0xD555, 0xF575, 0xCF55, 0xEF75]) }
    else if key == KEY_E as u32 { Some(vec![0xC245u16, 0xE265, 0x0000, 0x0000, 0xD945, 0xF965, 0xD845, 0xF865, 0xDB45, 0xFB65, 0xD545, 0xF565, 0xCF45, 0xEF65]) }
    else if key == KEY_D as u32 { Some(vec![0x00D1u16, 0x00F1]) }
    else if key == KEY_A as u32 | TONE_MASK { Some(vec![0xC141u16, 0xE161, 0xC041, 0xE061, 0xC541, 0xE561, 0xC341, 0xE361, 0xC441, 0xE461]) }
    else if key == KEY_A as u32 | TONEW_MASK { Some(vec![0xC941u16, 0xE961, 0xC841, 0xE861, 0xDA41, 0xFA61, 0xDC41, 0xFC61, 0xCB41, 0xEB61]) }
    else if key == KEY_O as u32 | TONE_MASK { Some(vec![0xC14Fu16, 0xE16F, 0xC04F, 0xE06F, 0xC54F, 0xE56F, 0xC34F, 0xE36F, 0xC44F, 0xE46F]) }
    else if key == KEY_O as u32 | TONEW_MASK { Some(vec![0xD9D4u16, 0xF9F4, 0xD8D4, 0xF8F4, 0xDBD4, 0xFBF4, 0xD5D4, 0xF5F4, 0xCFD4, 0xEFF4]) }
    else if key == KEY_U as u32 | TONEW_MASK { Some(vec![0xD9D6u16, 0xF9F6, 0xD8D6, 0xF8F6, 0xDBD6, 0xFBF6, 0xD5D6, 0xF5F6, 0xCFD6, 0xEFF6]) }
    else if key == KEY_E as u32 | TONE_MASK { Some(vec![0xC145u16, 0xE165, 0xC045, 0xE065, 0xC545, 0xE565, 0xC345, 0xE365, 0xC445, 0xE465]) }
    else if key == KEY_I as u32 { Some(vec![0x00CDu16, 0x00ED, 0x00CC, 0x00EC, 0x00C6, 0x00E6, 0x00D3, 0x00F3, 0x00D2, 0x00F2]) }
    else if key == KEY_Y as u32 { Some(vec![0xD959u16, 0xF979, 0xD859, 0xF879, 0xDB59, 0xFB79, 0xD559, 0xF579, 0x00CE, 0x00EE]) }
    else { None }
}

fn code_table_3(key: u32) -> (r: Option<Vec<u16>>)
    ensures opt_seq(r) == spec_code_table_3(key),
{
    if key == KEY_A as u32 { Some(vec![0x00C2u16, 0x00E2, 0x0102, 0x0103, 0x2041, 0x2061, 0x4041, 0x4061, 0x6041, 0x6061, 0x8041, 0x8061, 0xA041, 0xA061]) }
    else if key == KEY_O as u32 { Some(vec![0x00D4u16, 0x00F4, 0x01A0, 0x01A1, 0x204F, 0x206F, 0x404F, 0x406F, 0x604F, 0x606F, 0x804F, 0x806F, 0xA04F, 0xA06F]) }
    else if key == KEY_U as u32 { Some(vec![0x0000u16, 0x0000, 0x01AF, 0x01B0, 0x2055, 0x2075, 0x4055, 0x4075, 0x6055, 0x6075, 0x8055, 0x8075, 0xA055, 0xA075]) }
    else if key == KEY_E as u32 { Some(vec![0x00CAu16, 0x00EA, 0x0000, 0x0000, 0x2045, 0x2065, 0x4045, 0x4065, 0x6045, 0x6065, 0x8045, 0x8065, 0xA045, 0xA065]) }
    else if key == KEY_D as u32 { Some(vec![0x0110u16, 0x0111]) }
    else if key == KEY_A as u32 | TONE_MASK { Some(vec![0x20C2u16, 0x20E2, 0x40C2, 0x40E2, 0x60C2, 0x60E2, 0x80C2, 0x80E2, 0xA0C2, 0xA0E2]) }
    else if key == KEY_A as u32 | TONEW_MASK { Some(vec![0x2102u16, 0x2103, 0x4102, 0x4103, 0x6102, 0x6103, 0x8102, 0x8103, 0xA102, 0xA103]) }
    else if key == KEY_O as u32 | TONE_MASK { Some(vec![0x20D4u16, 0x20F4, 0x40D4, 0x40F4, 0x60D4, 0x60F4, 0x80D4, 0x80F4, 0xA0D4, 0xA0F4]) }
    else if key == KEY_O as u32 | TONEW_MASK { Some(vec![0x21A0u16, 0x21A1, 0x41A0, 0x41A1, 0x61A0, 0x61A1, 0x81A0, 0x81A1, 0xA1A0, 0xA1A1]) }
    else if key == KEY_U as u32 | TONEW_MASK { Some(vec![0x21AFu16, 0x21B0, 0x41AF, 0x41B0, 0x61AF, 0x61B0, 0x81AF, 0x81B0, 0xA1AF, 0xA1B0]) }
    else if key == KEY_E as u32 | TONE_MASK { Some(vec![0x20CAu16, 0x20EA, 0x40CA, 0x40EA, 0x60CA, 0x60EA, 0x80CA, 0x80EA, 0xA0CA, 0xA0EA]) }
    else if key == KEY_I as u32 { Some(vec![0x2049u16, 0x2069, 0x4049, 0x4069, 0x6049, 0x6069, 0x8049, 0x8069, 0xA049, 0xA069]) }
    else if key == KEY_Y as u32 { Some(vec![0x2059u16, 0x2079, 0x4059, 0x4079, 0x6059, 0x6079, 0x8059, 0x8079, 0xA059, 0xA079]) }
    else { None }
}

fn code_table_4(key: u32) -> (r: Option<Vec<u16>>)
    ensures opt_seq(r) == spec_code_table_4(key),
{
    if key == KEY_A as u32 { Some(vec![0x00C2u16, 0x00E2, 0x00C3, 0x00E3, 0xEC41, 0xEC61, 0xCC41, 0xCC61, 0xD241, 0xD261, 0xDE41, 0xDE61, 0xF241, 0xF261]) }
    else if key == KEY_O as u32 { Some(vec![0x00D4u16, 0x00F4, 0x00D5, 0x00F5, 0xEC4F, 0xEC6F, 0xCC4F, 0xCC6F, 0xD24F, 0xD26F, 0xDE4F, 0xDE6F, 0xF24F, 0xF26F]) }
    else if key == KEY_U as u32 { Some(vec![0x0000u16, 0x0000, 0x00DD, 0x00FD, 0xEC55, 0xEC75, 0xCC55, 0xCC75, 0xD255, 0xD275, 0xDE55, 0xDE75, 0xF255, 0xF275]) }
    else if key == KEY_E as u32 { Some(vec![0x00CAu16, 0x00EA, 0x0000, 0x0000, 0xEC45, 0xEC65, 0xCC45, 0xCC65, 0xD245, 0xD265, 0xDE45, 0xDE65, 0xF245, 0xF265]) }
    else if key == KEY_D as u32 { Some(vec![0x00D0u16, 0x00F0]) }
    else if key == KEY_A as u32 | TONE_MASK { Some(vec![0xECC2u16, 0xECE2, 0xCCC2, 0xCCE2, 0xD2C2, 0xD2E2, 0xDEC2, 0xDEE2, 0xF2C2, 0xF2E2]) }
    else if key == KEY_A as u32 | TONEW_MASK { Some(vec![0xECC3u16, 0xECE3, 0xCCC3, 0xCCE3, 0xD2C3, 0xD2E3, 0xDEC3, 0xDEE3, 0xF2C3, 0xF2E3]) }
    else if key == KEY_O as u32 | TONE_MASK { Some(vec![0xECD4u16, 0xECF4, 0xCCD4, 0xCCF4, 0xD2D4, 0xD2F4, 0xDED4, 0xDEF4, 0xF2D4, 0xF2F4]) }
    else if key == KEY_O as u32 | TONEW_MASK { Some(vec![0xECD5u16, 0xECF5, 0xCCD5, 0xCCF5, 0xD2D5, 0xD2F5, 0xDED5, 0xDEF5, 0xF2D5, 0xF2F5]) }
    else if key == KEY_U as u32 | TONEW_MASK { Some(vec![0xECDDu16, 0xECFD, 0xCCDD, 0xCCFD, 0xD2DD, 0xD2FD, 0xDEDD, 0xDEFD, 0xF2DD, 0xF2FD]) }
    else if key == KEY_E as u32 | TONE_MASK { Some(vec![0xECCAu16, 0xECEA, 0xCCCA, 0xCCEA, 0xD2CA, 0xD2EA, 0xDECA, 0xDEEA, 0xF2CA, 0xF2EA]) }
    else if key == KEY_I as u32 { Some(vec![0xEC49u16, 0xEC69, 0xCC49, 0xCC69, 0xD249, 0xD269, 0xDE49, 0xDE69, 0xF249, 0xF269]) }
    else if key == KEY_Y as u32 { Some(vec![0xEC59u16, 0xEC79, 0xCC59, 0xCC79, 0xD259, 0xD279, 0xDE59, 0xDE79, 0xF259, 0xF279]) }
    else { None }
}

/// The key code of a character (with `CAPS_MASK` for shifted characters).
pub open spec fn spec_character_to_key_code(c: u32) -> Option<u32> {
    if c == 97 { Some(KEY_A as u32) }
    else if c == 65 { Some((KEY_A as u32 + CAPS_MASK) as u32) }
    else if c == 98 { Some(KEY_B as u32) }
    else if c == 66 { Some((KEY_B as u32 + CAPS_MASK) as u32) }
    else if c == 99 { Some(KEY_C as u32) }
    else if c == 67 { Some((KEY_C as u32 + CAPS_MASK) as u32) }
    else if c == 100 { Some(KEY_D as u32) }
    else if c == 68 { Some((KEY_D as u32 + CAPS_MASK) as u32) }
    else if c == 101 { Some(KEY_E as u32) }
    else if c == 69 { Some((KEY_E as u32 + CAPS_MASK) as u32) }
    else if c == 102 { Some(KEY_F as u32) }
    else if c == 70 { Some((KEY_F as u32 + CAPS_MASK) as u32) }
    else if c == 103 { Some(KEY_G as u32) }
    else if c == 71 { Some((KEY_G as u32 + CAPS_MASK) as u32) }
    else if c == 104 { Some(KEY_H as u32) }
    else if c == 72 { Some((KEY_H as u32 + CAPS_MASK) as u32) }
    else if c == 105 { Some(KEY_I as u32) }
    else if c == 73 { Some((KEY_I as u32 + CAPS_MASK) as u32) }
    else if c == 106 { Some(KEY_J as u32) }
    else if c == 74 { Some((KEY_J as u32 + CAPS_MASK) as u32) }
    else if c == 107 { Some(KEY_K as u32) }
    else if c == 75 { Some((KEY_K as u32 + CAPS_MASK) as u32) }
    else if c == 108 { Some(KEY_L as u32) }
    else if c == 76 { Some((KEY_L as u32 + CAPS_MASK) as u32) }
    else if c == 109 { Some(KEY_M as u32) }
    else if c == 77 { Some((KEY_M as u32 + CAPS_MASK) as u32) }
    else if c == 110 { Some(KEY_N as u32) }
    else if c == 78 { Some((KEY_N as u32 + CAPS_MASK) as u32) }
    else if c == 111 { Some(KEY_O as u32) }
    else if c == 79 { Some((KEY_O as u32 + CAPS_MASK) as u32) }
    else if c == 112 { Some(KEY_P as u32) }
    else if c == 80 { Some((KEY_P as u32 + CAPS_MASK) as u32) }
    else if c == 113 { Some(KEY_Q as u32) }
    else if c == 81 { Some((KEY_Q as u32 + CAPS_MASK) as u32) }
    else if c == 114 { Some(KEY_R as u32) }
    else if c == 82 { Some((KEY_R as u32 + CAPS_MASK) as u32) }
    else if c == 115 { Some(KEY_S as u32) }
    else if c == 83 { Some((KEY_S as u32 + CAPS_MASK) as u32) }
    else if c == 116 { Some(KEY_T as u32) }
    else if c == 84 { Some((KEY_T as u32 + CAPS_MASK) as u32) }
    else if c == 117 { Some(KEY_U as u32) }
    else if c == 85 { Some((KEY_U as u32 + CAPS_MASK) as u32) }
    else if c == 118 { Some(KEY_V as u32) }
    else if c == 86 { Some((KEY_V as u32 + CAPS_MASK) as u32) }
    else if c == 119 { Some(KEY_W as u32) }
    else if c == 87 { Some((KEY_W as u32 + CAPS_MASK) as u32) }
    else if c == 120 { Some(KEY_X as u32) }
    else if c == 88 { Some((KEY_X as u32 + CAPS_MASK) as u32) }
    else if c == 121 { Some(KEY_Y as u32) }
    else if c == 89 { Some((KEY_Y as u32 + CAPS_MASK) as u32) }
    else if c == 122 { Some(KEY_Z as u32) }
    else if c == 90 { Some((KEY_Z as u32 + CAPS_MASK) as u32) }
    else if c == 49 { Some(KEY_1 as u32) }
    else if c == 33 { Some((KEY_1 as u32 + CAPS_MASK) as u32) }
    else if c == 50 { Some(KEY_2 as u32) }
    else if c == 64 { Some((KEY_2 as u32 + CAPS_MASK) as u32) }
    else if c == 51 { Some(KEY_3 as u32) }
    else if c == 35 { Some((KEY_3 as u32 + CAPS_MASK) as u32) }
    else if c == 52 { Some(KEY_4 as u32) }
    else if c == 36 { Some((KEY_4 as u32 + CAPS_MASK) as u32) }
    else if c == 53 { Some(KEY_5 as u32) }
    else if c == 37 { Some((KEY_5 as u32 + CAPS_MASK) as u32) }
    else if c == 54 { Some(KEY_6 as u32) }
    else if c == 94 { Some((KEY_6 as u32 + CAPS_MASK) as u32) }
    else if c == 55 { Some(KEY_7 as u32) }
    else if c == 38 { Some((KEY_7 as u32 + CAPS_MASK) as u32) }
    else if c == 56 { Some(KEY_8 as u32) }
    else if c == 42 { Some((KEY_8 as u32 + CAPS_MASK) as u32) }
    else if c == 57 { Some(KEY_9 as u32) }
    else if c == 40 { Some((KEY_9 as u32 + CAPS_MASK) as u32) }
    else if c == 48 { Some(KEY_0 as u32) }
    else if c == 41 { Some((KEY_0 as u32 + CAPS_MASK) as u32) }
    else if c == 96 { Some(KEY_BACKQUOTE as u32) }
    else if c == 126 { Some((KEY_BACKQUOTE as u32 + CAPS_MASK) as u32) }
    else if c == 45 { Some(KEY_MINUS as u32) }
    else if c == 95 { Some((KEY_MINUS as u32 + CAPS_MASK) as u32) }
    else if c == 61 { Some(KEY_EQUALS as u32) }
    else if c == 43 { Some((KEY_EQUALS as u32 + CAPS_MASK) as u32) }
    else if c == 91 { Some(KEY_LEFT_BRACKET as u32) }
    else if c == 123 { Some((KEY_LEFT_BRACKET as u32 + CAPS_MASK) as u32) }
    else if c == 93 { Some(KEY_RIGHT_BRACKET as u32) }
    else if c == 125 { Some((KEY_RIGHT_BRACKET as u32 + CAPS_MASK) as u32) }
    else if c == 92 { Some(KEY_BACK_SLASH as u32) }
    else if c == 124 { Some((KEY_BACK_SLASH as u32 + CAPS_MASK) as u32) }
    else if c == 59 { Some(KEY_SEMICOLON as u32) }
    else if c == 58 { Some((KEY_SEMICOLON as u32 + CAPS_MASK) as u32) }
    else if c == 39 { Some(KEY_QUOTE as u32) }
    else if c == 34 { Some((KEY_QUOTE as u32 + CAPS_MASK) as u32) }
    else if c == 44 { Some(KEY_COMMA as u32) }
    else if c == 60 { Some((KEY_COMMA as u32 + CAPS_MASK) as u32) }
    else if c == 46 { Some(KEY_DOT as u32) }
    else if c == 62 { Some((KEY_DOT as u32 + CAPS_MASK) as u32) }
    else if c == 47 { Some(KEY_SLASH as u32) }
    else if c == 63 { Some((KEY_SLASH as u32 + CAPS_MASK) as u32) }
    else if c == 32 { Some(KEY_SPACE as u32) }
    else { None }
}

/// The character typed by a key code (with `CAPS_MASK` for shifted keys), 0 for none.
pub open spec fn spec_key_code_to_character(k: u32) -> u16 {
    if k == KEY_A as u32 { 97 }
    else if k == KEY_A as u32 + CAPS_MASK { 65 }
    else if k == KEY_B as u32 { 98 }
    else if k == KEY_B as u32 + CAPS_MASK { 66 }
    else if k == KEY_C as u32 { 99 }
    else if k == KEY_C as u32 + CAPS_MASK { 67 }
    else if k == KEY_D as u32 { 100 }
    else if k == KEY_D as u32 + CAPS_MASK { 68 }
    else if k == KEY_E as u32 { 101 }
    else if k == KEY_E as u32 + CAPS_MASK { 69 }
    else if k == KEY_F as u32 { 102 }
    else if k == KEY_F as u32 + CAPS_MASK { 70 }
    else if k == KEY_G as u32 { 103 }
    else if k == KEY_G as u32 + CAPS_MASK { 71 }
    else if k == KEY_H as u32 { 104 }
    else if k == KEY_H as u32 + CAPS_MASK { 72 }
    else if k == KEY_I as u32 { 105 }
    else if k == KEY_I as u32 + CAPS_MASK { 73 }
    else if k == KEY_J as u32 { 106 }
    else if k == KEY_J as u32 + CAPS_MASK { 74 }
    else if k == KEY_K as u32 { 107 }
    else if k == KEY_K as u32 + CAPS_MASK { 75 }
    else if k == KEY_L as u32 { 108 }
    else if k == KEY_L as u32 + CAPS_MASK { 76 }
    else if k == KEY_M as u32 { 109 }
    else if k == KEY_M as u32 + CAPS_MASK { 77 }
    else if k == KEY_N as u32 { 110 }
    else if k == KEY_N as u32 + CAPS_MASK { 78 }
    else if k == KEY_O as u32 { 111 }
    else if k == KEY_O as u32 + CAPS_MASK { 79 }
    else if k == KEY_P as u32 { 112 }
    else if k == KEY_P as u32 + CAPS_MASK { 80 }
    else if k == KEY_Q as u32 { 113 }
    else if k == KEY_Q as u32 + CAPS_MASK { 81 }
    else if k == KEY_R as u32 { 114 }
    else if k == KEY_R as u32 + CAPS_MASK { 82 }
    else if k == KEY_S as u32 { 115 }
    else if k == KEY_S as u32 + CAPS_MASK { 83 }
    else if k == KEY_T as u32 { 116 }
    else if k == KEY_T as u32 + CAPS_MASK { 84 }
    else if k == KEY_U as u32 { 117 }
    else if k == KEY_U as u32 + CAPS_MASK { 85 }
    else if k == KEY_V as u32 { 118 }
    else if k == KEY_V as u32 + CAPS_MASK { 86 }
    else if k == KEY_W as u32 { 119 }
    else if k == KEY_W as u32 + CAPS_MASK { 87 }
    else if k == KEY_X as u32 { 120 }
    else if k == KEY_X as u32 + CAPS_MASK { 88 }
    else if k == KEY_Y as u32 { 121 }
    else if k == KEY_Y as u32 + CAPS_MASK { 89 }
    else if k == KEY_Z as u32 { 122 }
    else if k == KEY_Z as u32 + CAPS_MASK { 90 }
    else if k == KEY_1 as u32 { 49 }
    else if k == KEY_1 as u32 + CAPS_MASK { 33 }
    else if k == KEY_2 as u32 { 50 }
    else if k == KEY_2 as u32 + CAPS_MASK { 64 }
    else if k == KEY_3 as u32 { 51 }
    else if k == KEY_3 as u32 + CAPS_MASK { 35 }
    else if k == KEY_4 as u32 { 52 }
    else if k == KEY_4 as u32 + CAPS_MASK { 36 }
    else if k == KEY_5 as u32 { 53 }
    else if k == KEY_5 as u32 + CAPS_MASK { 37 }
    else if k == KEY_6 as u32 { 54 }
    else if k == KEY_6 as u32 + CAPS_MASK { 94 }
    else if k == KEY_7 as u32 { 55 }
    else if k == KEY_7 as u32 + CAPS_MASK { 38 }
    else if k == KEY_8 as u32 { 56 }
    else if k == KEY_8 as u32 + CAPS_MASK { 42 }
    else if k == KEY_9 as u32 { 57 }
    else if k == KEY_9 as u32 + CAPS_MASK { 40 }
    else if k == KEY_0 as u32 { 48 }
    else if k == KEY_0 as u32 + CAPS_MASK { 41 }
    else if k == KEY_BACKQUOTE as u32 { 96 }
    else if k == KEY_BACKQUOTE as u32 + CAPS_MASK { 126 }
    else if k == KEY_MINUS as u32 { 45 }
    else if k == KEY_MINUS as u32 + CAPS_MASK { 95 }
    else if k == KEY_EQUALS as u32 { 61 }
    else if k == KEY_EQUALS as u32 + CAPS_MASK { 43 }
    else if k == KEY_LEFT_BRACKET as u32 { 91 }
    else if k == KEY_LEFT_BRACKET as u32 + CAPS_MASK { 123 }
    else if k == KEY_RIGHT_BRACKET as u32 { 93 }
    else if k == KEY_RIGHT_BRACKET as u32 + CAPS_MASK { 125 }
    else if k == KEY_BACK_SLASH as u32 { 92 }
    else if k == KEY_BACK_SLASH as u32 + CAPS_MASK { 124 }
    else if k == KEY_SEMICOLON as u32 { 59 }
    else if k == KEY_SEMICOLON as u32 + CAPS_MASK { 58 }
    else if k == KEY_QUOTE as u32 { 39 }
    else if k == KEY_QUOTE as u32 + CAPS_MASK { 34 }
    else if k == KEY_COMMA as u32 { 44 }
    else if k == KEY_COMMA as u32 + CAPS_MASK { 60 }
    else if k == KEY_DOT as u32 { 46 }
    else if k == KEY_DOT as u32 + CAPS_MASK { 62 }
    else if k == KEY_SLASH as u32 { 47 }
    else if k == KEY_SLASH as u32 + CAPS_MASK { 63 }
    else if k == KEY_SPACE as u32 { 32 }
    else { 0 }
}

/// Map a character (Unicode code point) to a keyboard code (with `CAPS_MASK`).
pub fn character_to_key_code(ch: u32) -> (r: Option<u32>)
    ensures r == spec_character_to_key_code(ch),
{
    match ch {
        97 => Some(KEY_A as u32),
        65 => Some(KEY_A as u32 + CAPS_MASK),
        98 => Some(KEY_B as u32),
        66 => Some(KEY_B as u32 + CAPS_MASK),
        99 => Some(KEY_C as u32),
        67 => Some(KEY_C as u32 + CAPS_MASK),
        100 => Some(KEY_D as u32),
        68 => Some(KEY_D as u32 + CAPS_MASK),
        101 => Some(KEY_E as u32),
        69 => Some(KEY_E as u32 + CAPS_MASK),
        102 => Some(KEY_F as u32),
        70 => Some(KEY_F as u32 + CAPS_MASK),
        103 => Some(KEY_G as u32),
        71 => Some(KEY_G as u32 + CAPS_MASK),
        104 => Some(KEY_H as u32),
        72 => Some(KEY_H as u32 + CAPS_MASK),
        105 => Some(KEY_I as u32),
        73 => Some(KEY_I as u32 + CAPS_MASK),
        106 => Some(KEY_J as u32),
        74 => Some(KEY_J as u32 + CAPS_MASK),
        107 => Some(KEY_K as u32),
        75 => Some(KEY_K as u32 + CAPS_MASK),
        108 => Some(KEY_L as u32),
        76 => Some(KEY_L as u32 + CAPS_MASK),
        109 => Some(KEY_M as u32),
        77 => Some(KEY_M as u32 + CAPS_MASK),
        110 => Some(KEY_N as u32),
        78 => Some(KEY_N as u32 + CAPS_MASK),
        111 => Some(KEY_O as u32),
        79 => Some(KEY_O as u32 + CAPS_MASK),
        112 => Some(KEY_P as u32),
        80 => Some(KEY_P as u32 + CAPS_MASK),
        113 => Some(KEY_Q as u32),
        81 => Some(KEY_Q as u32 + CAPS_MASK),
        114 => Some(KEY_R as u32),
        82 => Some(KEY_R as u32 + CAPS_MASK),
        115 => Some(KEY_S as u32),
        83 => Some(KEY_S as u32 + CAPS_MASK),
        116 => Some(KEY_T as u32),
        84 => Some(KEY_T as u32 + CAPS_MASK),
        117 => Some(KEY_U as u32),
        85 => Some(KEY_U as u32 + CAPS_MASK),
        118 => Some(KEY_V as u32),
        86 => Some(KEY_V as u32 + CAPS_MASK),
        119 => Some(KEY_W as u32),
        87 => Some(KEY_W as u32 + CAPS_MASK),
        120 => Some(KEY_X as u32),
        88 => Some(KEY_X as u32 + CAPS_MASK),
        121 => Some(KEY_Y as u32),
        89 => Some(KEY_Y as u32 + CAPS_MASK),
        122 => Some(KEY_Z as u32),
        90 => Some(KEY_Z as u32 + CAPS_MASK),
        49 => Some(KEY_1 as u32),
        33 => Some(KEY_1 as u32 + CAPS_MASK),
        50 => Some(KEY_2 as u32),
        64 => Some(KEY_2 as u32 + CAPS_MASK),
        51 => Some(KEY_3 as u32),
        35 => Some(KEY_3 as u32 + CAPS_MASK),
        52 => Some(KEY_4 as u32),
        36 => Some(KEY_4 as u32 + CAPS_MASK),
        53 => Some(KEY_5 as u32),
        37 => Some(KEY_5 as u32 + CAPS_MASK),
        54 => Some(KEY_6 as u32),
        94 => Some(KEY_6 as u32 + CAPS_MASK),
        55 => Some(KEY_7 as u32),
        38 => Some(KEY_7 as u32 + CAPS_MASK),
        56 => Some(KEY_8 as u32),
        42 => Some(KEY_8 as u32 + CAPS_MASK),
        57 => Some(KEY_9 as u32),
        40 => Some(KEY_9 as u32 + CAPS_MASK),
        48 => Some(KEY_0 as u32),
        41 => Some(KEY_0 as u32 + CAPS_MASK),
        96 => Some(KEY_BACKQUOTE as u32),
        126 => Some(KEY_BACKQUOTE as u32 + CAPS_MASK),
        45 => Some(KEY_MINUS as u32),
        95 => Some(KEY_MINUS as u32 + CAPS_MASK),
        61 => Some(KEY_EQUALS as u32),
        43 => Some(KEY_EQUALS as u32 + CAPS_MASK),
        91 => Some(KEY_LEFT_BRACKET as u32),
        123 => Some(KEY_LEFT_BRACKET as u32 + CAPS_MASK),
        93 => Some(KEY_RIGHT_BRACKET as u32),
        125 => Some(KEY_RIGHT_BRACKET as u32 + CAPS_MASK),
        92 => Some(KEY_BACK_SLASH as u32),
        124 => Some(KEY_BACK_SLASH as u32 + CAPS_MASK),
        59 => Some(KEY_SEMICOLON as u32),
        58 => Some(KEY_SEMICOLON as u32 + CAPS_MASK),
        39 => Some(KEY_QUOTE as u32),
        34 => Some(KEY_QUOTE as u32 + CAPS_MASK),
        44 => Some(KEY_COMMA as u32),
        60 => Some(KEY_COMMA as u32 + CAPS_MASK),
        46 => Some(KEY_DOT as u32),
        62 => Some(KEY_DOT as u32 + CAPS_MASK),
        47 => Some(KEY_SLASH as u32),
        63 => Some(KEY_SLASH as u32 + CAPS_MASK),
        32 => Some(KEY_SPACE as u32),
        _ => None,
    }
}

/// Map a keyboard code (optionally with `CAPS_MASK`) back to its character; 0 when none.
pub fn key_code_to_character(k: u32) -> (r: u16)
    ensures r == spec_key_code_to_character(k),
{
    if k == KEY_A as u32 { 97 }
    else if k == KEY_A as u32 + CAPS_MASK { 65 }
    else if k == KEY_B as u32 { 98 }
    else if k == KEY_B as u32 + CAPS_MASK { 66 }
    else if k == KEY_C as u32 { 99 }
    else if k == KEY_C as u32 + CAPS_MASK { 67 }
    else if k == KEY_D as u32 { 100 }
    else if k == KEY_D as u32 + CAPS_MASK { 68 }
    else if k == KEY_E as u32 { 101 }
    else if k == KEY_E as u32 + CAPS_MASK { 69 }
    else if k == KEY_F as u32 { 102 }
    else if k == KEY_F as u32 + CAPS_MASK { 70 }
    else if k == KEY_G as u32 { 103 }
    else if k == KEY_G as u32 + CAPS_MASK { 71 }
    else if k == KEY_H as u32 { 104 }
    else if k == KEY_H as u32 + CAPS_MASK { 72 }
    else if k == KEY_I as u32 { 105 }
    else if k == KEY_I as u32 + CAPS_MASK { 73 }
    else if k == KEY_J as u32 { 106 }
    else if k == KEY_J as u32 + CAPS_MASK { 74 }
    else if k == KEY_K as u32 { 107 }
    else if k == KEY_K as u32 + CAPS_MASK { 75 }
    else if k == KEY_L as u32 { 108 }
    else if k == KEY_L as u32 + CAPS_MASK { 76 }
    else if k == KEY_M as u32 { 109 }
    else if k == KEY_M as u32 + CAPS_MASK { 77 }
    else if k == KEY_N as u32 { 110 }
    else if k == KEY_N as u32 + CAPS_MASK { 78 }
    else if k == KEY_O as u32 { 111 }
    else if k == KEY_O as u32 + CAPS_MASK { 79 }
    else if k == KEY_P as u32 { 112 }
    else if k == KEY_P as u32 + CAPS_MASK { 80 }
    else if k == KEY_Q as u32 { 113 }
    else if k == KEY_Q as u32 + CAPS_MASK { 81 }
    else if k == KEY_R as u32 { 114 }
    else if k == KEY_R as u32 + CAPS_MASK { 82 }
    else if k == KEY_S as u32 { 115 }
    else if k == KEY_S as u32 + CAPS_MASK { 83 }
    else if k == KEY_T as u32 { 116 }
    else if k == KEY_T as u32 + CAPS_MASK { 84 }
    else if k == KEY_U as u32 { 117 }
    else if k == KEY_U as u32 + CAPS_MASK { 85 }
    else if k == KEY_V as u32 { 118 }
    else if k == KEY_V as u32 + CAPS_MASK { 86 }
    else if k == KEY_W as u32 { 119 }
    else if k == KEY_W as u32 + CAPS_MASK { 87 }
    else if k == KEY_X as u32 { 120 }
    else if k == KEY_X as u32 + CAPS_MASK { 88 }
    else if k == KEY_Y as u32 { 121 }
    else if k == KEY_Y as u32 + CAPS_MASK { 89 }
    else if k == KEY_Z as u32 { 122 }
    else if k == KEY_Z as u32 + CAPS_MASK { 90 }
    else if k == KEY_1 as u32 { 49 }
    else if k == KEY_1 as u32 + CAPS_MASK { 33 }
    else if k == KEY_2 as u32 { 50 }
    else if k == KEY_2 as u32 + CAPS_MASK { 64 }
    else if k == KEY_3 as u32 { 51 }
    else if k == KEY_3 as u32 + CAPS_MASK { 35 }
    else if k == KEY_4 as u32 { 52 }
    else if k == KEY_4 as u32 + CAPS_MASK { 36 }
    else if k == KEY_5 as u32 { 53 }
    else if k == KEY_5 as u32 + CAPS_MASK { 37 }
    else if k == KEY_6 as u32 { 54 }
    else if k == KEY_6 as u32 + CAPS_MASK { 94 }
    else if k == KEY_7 as u32 { 55 }
    else if k == KEY_7 as u32 + CAPS_MASK { 38 }
    else if k == KEY_8 as u32 { 56 }
    else if k == KEY_8 as u32 + CAPS_MASK { 42 }
    else if k == KEY_9 as u32 { 57 }
    else if k == KEY_9 as u32 + CAPS_MASK { 40 }
    else if k == KEY_0 as u32 { 48 }
    else if k == KEY_0 as u32 + CAPS_MASK { 41 }
    else if k == KEY_BACKQUOTE as u32 { 96 }
    else if k == KEY_BACKQUOTE as u32 + CAPS_MASK { 126 }
    else if k == KEY_MINUS as u32 { 45 }
    else if k == KEY_MINUS as u32 + CAPS_MASK { 95 }
    else if k == KEY_EQUALS as u32 { 61 }
    else if k == KEY_EQUALS as u32 + CAPS_MASK { 43 }
    else if k == KEY_LEFT_BRACKET as u32 { 91 }
    else if k == KEY_LEFT_BRACKET as u32 + CAPS_MASK { 123 }
    else if k == KEY_RIGHT_BRACKET as u32 { 93 }
    else if k == KEY_RIGHT_BRACKET as u32 + CAPS_MASK { 125 }
    else if k == KEY_BACK_SLASH as u32 { 92 }
    else if k == KEY_BACK_SLASH as u32 + CAPS_MASK { 124 }
    else if k == KEY_SEMICOLON as u32 { 59 }
    else if k == KEY_SEMICOLON as u32 + CAPS_MASK { 58 }
    else if k == KEY_QUOTE as u32 { 39 }
    else if k == KEY_QUOTE as u32 + CAPS_MASK { 34 }
    else if k == KEY_COMMA as u32 { 44 }
    else if k == KEY_COMMA as u32 + CAPS_MASK { 60 }
    else if k == KEY_DOT as u32 { 46 }
    else if k == KEY_DOT as u32 + CAPS_MASK { 62 }
    else if k == KEY_SLASH as u32 { 47 }
    else if k == KEY_SLASH as u32 + CAPS_MASK { 63 }
    else if k == KEY_SPACE as u32 { 32 }
    else { 0 }
}

/// Every mapped character is typed by a key whose character is that character.
pub proof fn lemma_character_key_roundtrip(c: u32)
    requires spec_character_to_key_code(c) is Some,
    ensures spec_key_code_to_character(spec_character_to_key_code(c)->0) as u32 == c,
{
}

} // verus!
