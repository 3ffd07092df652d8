//! Permissions: the triple of digits for owner, group and others, the mode
//! word that holds it, and the nine characters of a listing that show it.

use vstd::prelude::*;
use crate::utils::text::chars_of;

verus! {

/// The mode word of a file whose permissions are not known.
pub const DEFAULT_MODE: i32 = 0o644;

/// The digit that three characters of a listing show: 4 for the first, 2
/// for the second and 1 for the third, each counted unless it is a dash.
pub open spec fn pex_digit(s: Seq<char>, at: int) -> int {
    (if s[at] != '-' {
        4int
    } else {
        0int
    }) + (if s[at + 1] != '-' {
        2int
    } else {
        0int
    }) + (if s[at + 2] != '-' {
        1int
    } else {
        0int
    })
}

/// The permissions that the first nine characters of `s` show.
pub open spec fn pex_of_text(s: Seq<char>) -> Option<(int, int, int)> {
    if s.len() < 9 {
        None
    } else {
        Some((pex_digit(s, 0), pex_digit(s, 3), pex_digit(s, 6)))
    }
}

/// The mode word of a permission triple.
pub open spec fn mode_of_pex(owner: u8, group: u8, others: u8) -> u32 {
    (owner as u32) << 6 | (group as u32) << 3 | (others as u32)
}

/// The mode word to send a file with: that of its permissions, or
/// `DEFAULT_MODE` where they are not known.
pub open spec fn mode_of(pex: Option<(u8, u8, u8)>) -> int {
    match pex {
        Some((owner, group, others)) => mode_of_pex(owner, group, others) as int,
        None => DEFAULT_MODE as int,
    }
}

/// The permission triple in the low nine bits of a mode word.
pub open spec fn pex_of_mode(mode: u32) -> (u8, u8, u8) {
    (((mode >> 6) & 0x7) as u8, ((mode >> 3) & 0x7) as u8, (mode & 0x7) as u8)
}

/// One digit of a listing's permissions.
fn digit_at(v: &Vec<char>, at: usize) -> (r: u8)
    requires
        at + 3 <= v.len(),
    ensures
        r as int == pex_digit(v@, at as int),
        r <= 7,
{
    let mut count: u8 = 0;
    if v[at] != '-' {
        count += 4;
    }
    if v[at + 1] != '-' {
        count += 2;
    }
    if v[at + 2] != '-' {
        count += 1;
    }
    count
}

/// Reads the permissions that a listing shows, given as characters.
pub fn pex_of_chars(v: &Vec<char>) -> (r: Option<(u8, u8, u8)>)
    ensures
        r is Some == pex_of_text(v@) is Some,
        r matches Some((owner, group, others)) ==> {
            &&& (owner as int, group as int, others as int) == pex_of_text(v@)->0
            &&& owner <= 7
            &&& group <= 7
            &&& others <= 7
        },
{
    if v.len() < 9 {
        None
    } else {
        Some((digit_at(v, 0), digit_at(v, 3), digit_at(v, 6)))
    }
}

/// Reads the permissions that the first nine characters of `text` show, as
/// in `rwxr-xr--`. A text of fewer characters shows none.
pub fn decode_permissions(text: &str) -> (r: Option<(u8, u8, u8)>)
    ensures
        r is Some == (text@.len() >= 9),
        r matches Some((owner, group, others)) ==> {
            &&& (owner as int, group as int, others as int) == pex_of_text(text@)->0
            &&& owner <= 7
            &&& group <= 7
            &&& others <= 7
        },
{
    let v = chars_of(text);
    pex_of_chars(&v)
}

/// The mode word to send a file with.
pub fn file_mode(pex: Option<(u8, u8, u8)>) -> (r: i32)
    ensures
        r as int == mode_of(pex),
        0 <= r <= 0x3fff,
{
    match pex {
        None => DEFAULT_MODE,
        Some((owner, group, others)) => {
            let word: u32 = (owner as u32) << 6 | (group as u32) << 3 | (others as u32);
            assert(word <= 0x3fff) by (bit_vector)
                requires
                    word == (owner as u32) << 6 | (group as u32) << 3 | (others as u32),
            ;
            word as i32
        },
    }
}

/// Reads the permission triple out of a mode word.
pub fn mode_pex(mode: u32) -> (r: (u8, u8, u8))
    ensures
        r == pex_of_mode(mode),
        r.0 <= 7,
        r.1 <= 7,
        r.2 <= 7,
{
    let owner: u32 = (mode >> 6) & 0x7;
    let group: u32 = (mode >> 3) & 0x7;
    let others: u32 = mode & 0x7;
    assert(owner <= 7 && group <= 7 && others <= 7) by (bit_vector)
        requires
            owner == (mode >> 6) & 0x7,
            group == (mode >> 3) & 0x7,
            others == mode & 0x7,
    ;
    (owner as u8, group as u8, others as u8)
}

/// Packing a triple of digits into a mode word and reading it back gives
/// the triple again.
pub proof fn lemma_mode_round_trip(owner: u8, group: u8, others: u8)
    requires
        owner <= 7,
        group <= 7,
        others <= 7,
    ensures
        pex_of_mode(mode_of_pex(owner, group, others)) == (owner, group, others),
{
    let o = owner as u32;
    let g = group as u32;
    let u = others as u32;
    let word = o << 6 | g << 3 | u;
    assert((word >> 6) & 0x7 == o && (word >> 3) & 0x7 == g && word & 0x7 == u) by (bit_vector)
        requires
            o <= 7,
            g <= 7,
            u <= 7,
            word == o << 6 | g << 3 | u,
    ;
}

/// The characters `-`, or anything else, give digits from 0 to 7 whatever
/// they are.
pub proof fn lemma_pex_digits_in_range(s: Seq<char>)
    requires
        s.len() >= 9,
    ensures
        pex_of_text(s) matches Some((owner, group, others)) && 0 <= owner <= 7 && 0 <= group <= 7
            && 0 <= others <= 7,
{
}

} // verus!
