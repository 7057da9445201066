//! Keyword recognition for the rule grammar.
//!
//! Keywords are matched case-insensitively on the ASCII codes of a word's
//! characters; relational symbols are matched exactly.

use vstd::prelude::*;

verus! {

/// Uppercase fold of an ASCII code.
pub open spec fn spec_up(b: u8) -> u8 {
    if 97 <= b <= 122 {
        (b - 32) as u8
    } else {
        b
    }
}

/// Uppercase fold of an ASCII code.
pub fn upper_code(b: u8) -> (r: u8)
    ensures
        r == spec_up(b),
{
    if 97 <= b && b <= 122 {
        b - 32
    } else {
        b
    }
}

/// Whether an ASCII code is a decimal digit.
pub open spec fn spec_is_digit(b: u8) -> bool {
    48 <= b <= 57
}

/// Whether a word is the token `RULE`.
pub open spec fn spec_is_kw_rule(w: Seq<char>) -> bool {
    w.len() == 4 && spec_up(w[0] as u8) == 82 && spec_up(w[1] as u8) == 85 && spec_up(w[2] as u8) == 76 && spec_up(w[3] as u8) == 69
}

/// Whether the word at `[a, b)` of `text` is the token `RULE`.
pub fn is_kw_rule(text: &str, a: usize, b: usize) -> (r: bool)
    requires
        text.is_ascii(),
        a <= b <= text@.len(),
    ensures
        r == spec_is_kw_rule(text@.subrange(a as int, b as int)),
{
    if b - a != 4 {
        return false;
    }
    upper_code(text.get_ascii(a)) == 82
        && upper_code(text.get_ascii(a + 1)) == 85
        && upper_code(text.get_ascii(a + 2)) == 76
        && upper_code(text.get_ascii(a + 3)) == 69
}

/// Whether a word is the token `IF`.
pub open spec fn spec_is_kw_if(w: Seq<char>) -> bool {
    w.len() == 2 && spec_up(w[0] as u8) == 73 && spec_up(w[1] as u8) == 70
}

/// Whether the word at `[a, b)` of `text` is the token `IF`.
pub fn is_kw_if(text: &str, a: usize, b: usize) -> (r: bool)
    requires
        text.is_ascii(),
        a <= b <= text@.len(),
    ensures
        r == spec_is_kw_if(text@.subrange(a as int, b as int)),
{
    if b - a != 2 {
        return false;
    }
    upper_code(text.get_ascii(a)) == 73
        && upper_code(text.get_ascii(a + 1)) == 70
}

/// Whether a word is the token `AND`.
pub open spec fn spec_is_kw_and(w: Seq<char>) -> bool {
    w.len() == 3 && spec_up(w[0] as u8) == 65 && spec_up(w[1] as u8) == 78 && spec_up(w[2] as u8) == 68
}

/// Whether the word at `[a, b)` of `text` is the token `AND`.
pub fn is_kw_and(text: &str, a: usize, b: usize) -> (r: bool)
    requires
        text.is_ascii(),
        a <= b <= text@.len(),
    ensures
        r == spec_is_kw_and(text@.subrange(a as int, b as int)),
{
    if b - a != 3 {
        return false;
    }
    upper_code(text.get_ascii(a)) == 65
        && upper_code(text.get_ascii(a + 1)) == 78
        && upper_code(text.get_ascii(a + 2)) == 68
}

/// Whether a word is the token `OR`.
pub open spec fn spec_is_kw_or(w: Seq<char>) -> bool {
    w.len() == 2 && spec_up(w[0] as u8) == 79 && spec_up(w[1] as u8) == 82
}

/// Whether the word at `[a, b)` of `text` is the token `OR`.
pub fn is_kw_or(text: &str, a: usize, b: usize) -> (r: bool)
    requires
        text.is_ascii(),
        a <= b <= text@.len(),
    ensures
        r == spec_is_kw_or(text@.subrange(a as int, b as int)),
{
    if b - a != 2 {
        return false;
    }
    upper_code(text.get_ascii(a)) == 79
        && upper_code(text.get_ascii(a + 1)) == 82
}

/// Whether a word is the token `THEN`.
pub open spec fn spec_is_kw_then(w: Seq<char>) -> bool {
    w.len() == 4 && spec_up(w[0] as u8) == 84 && spec_up(w[1] as u8) == 72 && spec_up(w[2] as u8) == 69 && spec_up(w[3] as u8) == 78
}

/// Whether the word at `[a, b)` of `text` is the token `THEN`.
pub fn is_kw_then(text: &str, a: usize, b: usize) -> (r: bool)
    requires
        text.is_ascii(),
        a <= b <= text@.len(),
    ensures
        r == spec_is_kw_then(text@.subrange(a as int, b as int)),
{
    if b - a != 4 {
        return false;
    }
    upper_code(text.get_ascii(a)) == 84
        && upper_code(text.get_ascii(a + 1)) == 72
        && upper_code(text.get_ascii(a + 2)) == 69
        && upper_code(text.get_ascii(a + 3)) == 78
}

/// Whether a word is the token `ELSE`.
pub open spec fn spec_is_kw_else(w: Seq<char>) -> bool {
    w.len() == 4 && spec_up(w[0] as u8) == 69 && spec_up(w[1] as u8) == 76 && spec_up(w[2] as u8) == 83 && spec_up(w[3] as u8) == 69
}

/// Whether the word at `[a, b)` of `text` is the token `ELSE`.
pub fn is_kw_else(text: &str, a: usize, b: usize) -> (r: bool)
    requires
        text.is_ascii(),
        a <= b <= text@.len(),
    ensures
        r == spec_is_kw_else(text@.subrange(a as int, b as int)),
{
    if b - a != 4 {
        return false;
    }
    upper_code(text.get_ascii(a)) == 69
        && upper_code(text.get_ascii(a + 1)) == 76
        && upper_code(text.get_ascii(a + 2)) == 83
        && upper_code(text.get_ascii(a + 3)) == 69
}

/// Whether a word is the token `PRIORITY`.
pub open spec fn spec_is_kw_priority(w: Seq<char>) -> bool {
    w.len() == 8 && spec_up(w[0] as u8) == 80 && spec_up(w[1] as u8) == 82 && spec_up(w[2] as u8) == 73 && spec_up(w[3] as u8) == 79 && spec_up(w[4] as u8) == 82 && spec_up(w[5] as u8) == 73 && spec_up(w[6] as u8) == 84 && spec_up(w[7] as u8) == 89
}

/// Whether the word at `[a, b)` of `text` is the token `PRIORITY`.
pub fn is_kw_priority(text: &str, a: usize, b: usize) -> (r: bool)
    requires
        text.is_ascii(),
        a <= b <= text@.len(),
    ensures
        r == spec_is_kw_priority(text@.subrange(a as int, b as int)),
{
    if b - a != 8 {
        return false;
    }
    upper_code(text.get_ascii(a)) == 80
        && upper_code(text.get_ascii(a + 1)) == 82
        && upper_code(text.get_ascii(a + 2)) == 73
        && upper_code(text.get_ascii(a + 3)) == 79
        && upper_code(text.get_ascii(a + 4)) == 82
        && upper_code(text.get_ascii(a + 5)) == 73
        && upper_code(text.get_ascii(a + 6)) == 84
        && upper_code(text.get_ascii(a + 7)) == 89
}

/// Whether a word is the token `NODE`.
pub open spec fn spec_is_kw_node(w: Seq<char>) -> bool {
    w.len() == 4 && spec_up(w[0] as u8) == 78 && spec_up(w[1] as u8) == 79 && spec_up(w[2] as u8) == 68 && spec_up(w[3] as u8) == 69
}

/// Whether the word at `[a, b)` of `text` is the token `NODE`.
pub fn is_kw_node(text: &str, a: usize, b: usize) -> (r: bool)
    requires
        text.is_ascii(),
        a <= b <= text@.len(),
    ensures
        r == spec_is_kw_node(text@.subrange(a as int, b as int)),
{
    if b - a != 4 {
        return false;
    }
    upper_code(text.get_ascii(a)) == 78
        && upper_code(text.get_ascii(a + 1)) == 79
        && upper_code(text.get_ascii(a + 2)) == 68
        && upper_code(text.get_ascii(a + 3)) == 69
}

/// Whether a word is the token `LINK`.
pub open spec fn spec_is_kw_link(w: Seq<char>) -> bool {
    w.len() == 4 && spec_up(w[0] as u8) == 76 && spec_up(w[1] as u8) == 73 && spec_up(w[2] as u8) == 78 && spec_up(w[3] as u8) == 75
}

/// Whether the word at `[a, b)` of `text` is the token `LINK`.
pub fn is_kw_link(text: &str, a: usize, b: usize) -> (r: bool)
    requires
        text.is_ascii(),
        a <= b <= text@.len(),
    ensures
        r == spec_is_kw_link(text@.subrange(a as int, b as int)),
{
    if b - a != 4 {
        return false;
    }
    upper_code(text.get_ascii(a)) == 76
        && upper_code(text.get_ascii(a + 1)) == 73
        && upper_code(text.get_ascii(a + 2)) == 78
        && upper_code(text.get_ascii(a + 3)) == 75
}

/// Whether a word is the token `SYSTEM`.
pub open spec fn spec_is_kw_system(w: Seq<char>) -> bool {
    w.len() == 6 && spec_up(w[0] as u8) == 83 && spec_up(w[1] as u8) == 89 && spec_up(w[2] as u8) == 83 && spec_up(w[3] as u8) == 84 && spec_up(w[4] as u8) == 69 && spec_up(w[5] as u8) == 77
}

/// Whether the word at `[a, b)` of `text` is the token `SYSTEM`.
pub fn is_kw_system(text: &str, a: usize, b: usize) -> (r: bool)
    requires
        text.is_ascii(),
        a <= b <= text@.len(),
    ensures
        r == spec_is_kw_system(text@.subrange(a as int, b as int)),
{
    if b - a != 6 {
        return false;
    }
    upper_code(text.get_ascii(a)) == 83
        && upper_code(text.get_ascii(a + 1)) == 89
        && upper_code(text.get_ascii(a + 2)) == 83
        && upper_code(text.get_ascii(a + 3)) == 84
        && upper_code(text.get_ascii(a + 4)) == 69
        && upper_code(text.get_ascii(a + 5)) == 77
}

/// Whether a word is the token `DEMAND`.
pub open spec fn spec_is_kw_demand(w: Seq<char>) -> bool {
    w.len() == 6 && spec_up(w[0] as u8) == 68 && spec_up(w[1] as u8) == 69 && spec_up(w[2] as u8) == 77 && spec_up(w[3] as u8) == 65 && spec_up(w[4] as u8) == 78 && spec_up(w[5] as u8) == 68
}

/// Whether the word at `[a, b)` of `text` is the token `DEMAND`.
pub fn is_kw_demand(text: &str, a: usize, b: usize) -> (r: bool)
    requires
        text.is_ascii(),
        a <= b <= text@.len(),
    ensures
        r == spec_is_kw_demand(text@.subrange(a as int, b as int)),
{
    if b - a != 6 {
        return false;
    }
    upper_code(text.get_ascii(a)) == 68
        && upper_code(text.get_ascii(a + 1)) == 69
        && upper_code(text.get_ascii(a + 2)) == 77
        && upper_code(text.get_ascii(a + 3)) == 65
        && upper_code(text.get_ascii(a + 4)) == 78
        && upper_code(text.get_ascii(a + 5)) == 68
}

/// Whether a word is the token `HEAD`.
pub open spec fn spec_is_kw_head(w: Seq<char>) -> bool {
    w.len() == 4 && spec_up(w[0] as u8) == 72 && spec_up(w[1] as u8) == 69 && spec_up(w[2] as u8) == 65 && spec_up(w[3] as u8) == 68
}

/// Whether the word at `[a, b)` of `text` is the token `HEAD`.
pub fn is_kw_head(text: &str, a: usize, b: usize) -> (r: bool)
    requires
        text.is_ascii(),
        a <= b <= text@.len(),
    ensures
        r == spec_is_kw_head(text@.subrange(a as int, b as int)),
{
    if b - a != 4 {
        return false;
    }
    upper_code(text.get_ascii(a)) == 72
        && upper_code(text.get_ascii(a + 1)) == 69
        && upper_code(text.get_ascii(a + 2)) == 65
        && upper_code(text.get_ascii(a + 3)) == 68
}

/// Whether a word is the token `GRADE`.
pub open spec fn spec_is_kw_grade(w: Seq<char>) -> bool {
    w.len() == 5 && spec_up(w[0] as u8) == 71 && spec_up(w[1] as u8) == 82 && spec_up(w[2] as u8) == 65 && spec_up(w[3] as u8) == 68 && spec_up(w[4] as u8) == 69
}

/// Whether the word at `[a, b)` of `text` is the token `GRADE`.
pub fn is_kw_grade(text: &str, a: usize, b: usize) -> (r: bool)
    requires
        text.is_ascii(),
        a <= b <= text@.len(),
    ensures
        r == spec_is_kw_grade(text@.subrange(a as int, b as int)),
{
    if b - a != 5 {
        return false;
    }
    upper_code(text.get_ascii(a)) == 71
        && upper_code(text.get_ascii(a + 1)) == 82
        && upper_code(text.get_ascii(a + 2)) == 65
        && upper_code(text.get_ascii(a + 3)) == 68
        && upper_code(text.get_ascii(a + 4)) == 69
}

/// Whether a word is the token `LEVEL`.
pub open spec fn spec_is_kw_level(w: Seq<char>) -> bool {
    w.len() == 5 && spec_up(w[0] as u8) == 76 && spec_up(w[1] as u8) == 69 && spec_up(w[2] as u8) == 86 && spec_up(w[3] as u8) == 69 && spec_up(w[4] as u8) == 76
}

/// Whether the word at `[a, b)` of `text` is the token `LEVEL`.
pub fn is_kw_level(text: &str, a: usize, b: usize) -> (r: bool)
    requires
        text.is_ascii(),
        a <= b <= text@.len(),
    ensures
        r == spec_is_kw_level(text@.subrange(a as int, b as int)),
{
    if b - a != 5 {
        return false;
    }
    upper_code(text.get_ascii(a)) == 76
        && upper_code(text.get_ascii(a + 1)) == 69
        && upper_code(text.get_ascii(a + 2)) == 86
        && upper_code(text.get_ascii(a + 3)) == 69
        && upper_code(text.get_ascii(a + 4)) == 76
}

/// Whether a word is the token `PRESSURE`.
pub open spec fn spec_is_kw_pressure(w: Seq<char>) -> bool {
    w.len() == 8 && spec_up(w[0] as u8) == 80 && spec_up(w[1] as u8) == 82 && spec_up(w[2] as u8) == 69 && spec_up(w[3] as u8) == 83 && spec_up(w[4] as u8) == 83 && spec_up(w[5] as u8) == 85 && spec_up(w[6] as u8) == 82 && spec_up(w[7] as u8) == 69
}

/// Whether the word at `[a, b)` of `text` is the token `PRESSURE`.
pub fn is_kw_pressure(text: &str, a: usize, b: usize) -> (r: bool)
    requires
        text.is_ascii(),
        a <= b <= text@.len(),
    ensures
        r == spec_is_kw_pressure(text@.subrange(a as int, b as int)),
{
    if b - a != 8 {
        return false;
    }
    upper_code(text.get_ascii(a)) == 80
        && upper_code(text.get_ascii(a + 1)) == 82
        && upper_code(text.get_ascii(a + 2)) == 69
        && upper_code(text.get_ascii(a + 3)) == 83
        && upper_code(text.get_ascii(a + 4)) == 83
        && upper_code(text.get_ascii(a + 5)) == 85
        && upper_code(text.get_ascii(a + 6)) == 82
        && upper_code(text.get_ascii(a + 7)) == 69
}

/// Whether a word is the token `FLOW`.
pub open spec fn spec_is_kw_flow(w: Seq<char>) -> bool {
    w.len() == 4 && spec_up(w[0] as u8) == 70 && spec_up(w[1] as u8) == 76 && spec_up(w[2] as u8) == 79 && spec_up(w[3] as u8) == 87
}

/// Whether the word at `[a, b)` of `text` is the token `FLOW`.
pub fn is_kw_flow(text: &str, a: usize, b: usize) -> (r: bool)
    requires
        text.is_ascii(),
        a <= b <= text@.len(),
    ensures
        r == spec_is_kw_flow(text@.subrange(a as int, b as int)),
{
    if b - a != 4 {
        return false;
    }
    upper_code(text.get_ascii(a)) == 70
        && upper_code(text.get_ascii(a + 1)) == 76
        && upper_code(text.get_ascii(a + 2)) == 79
        && upper_code(text.get_ascii(a + 3)) == 87
}

/// Whether a word is the token `STATUS`.
pub open spec fn spec_is_kw_status(w: Seq<char>) -> bool {
    w.len() == 6 && spec_up(w[0] as u8) == 83 && spec_up(w[1] as u8) == 84 && spec_up(w[2] as u8) == 65 && spec_up(w[3] as u8) == 84 && spec_up(w[4] as u8) == 85 && spec_up(w[5] as u8) == 83
}

/// Whether the word at `[a, b)` of `text` is the token `STATUS`.
pub fn is_kw_status(text: &str, a: usize, b: usize) -> (r: bool)
    requires
        text.is_ascii(),
        a <= b <= text@.len(),
    ensures
        r == spec_is_kw_status(text@.subrange(a as int, b as int)),
{
    if b - a != 6 {
        return false;
    }
    upper_code(text.get_ascii(a)) == 83
        && upper_code(text.get_ascii(a + 1)) == 84
        && upper_code(text.get_ascii(a + 2)) == 65
        && upper_code(text.get_ascii(a + 3)) == 84
        && upper_code(text.get_ascii(a + 4)) == 85
        && upper_code(text.get_ascii(a + 5)) == 83
}

/// Whether a word is the token `SETTING`.
pub open spec fn spec_is_kw_setting(w: Seq<char>) -> bool {
    w.len() == 7 && spec_up(w[0] as u8) == 83 && spec_up(w[1] as u8) == 69 && spec_up(w[2] as u8) == 84 && spec_up(w[3] as u8) == 84 && spec_up(w[4] as u8) == 73 && spec_up(w[5] as u8) == 78 && spec_up(w[6] as u8) == 71
}

/// Whether the word at `[a, b)` of `text` is the token `SETTING`.
pub fn is_kw_setting(text: &str, a: usize, b: usize) -> (r: bool)
    requires
        text.is_ascii(),
        a <= b <= text@.len(),
    ensures
        r == spec_is_kw_setting(text@.subrange(a as int, b as int)),
{
    if b - a != 7 {
        return false;
    }
    upper_code(text.get_ascii(a)) == 83
        && upper_code(text.get_ascii(a + 1)) == 69
        && upper_code(text.get_ascii(a + 2)) == 84
        && upper_code(text.get_ascii(a + 3)) == 84
        && upper_code(text.get_ascii(a + 4)) == 73
        && upper_code(text.get_ascii(a + 5)) == 78
        && upper_code(text.get_ascii(a + 6)) == 71
}

/// Whether a word is the token `POWER`.
pub open spec fn spec_is_kw_power(w: Seq<char>) -> bool {
    w.len() == 5 && spec_up(w[0] as u8) == 80 && spec_up(w[1] as u8) == 79 && spec_up(w[2] as u8) == 87 && spec_up(w[3] as u8) == 69 && spec_up(w[4] as u8) == 82
}

/// Whether the word at `[a, b)` of `text` is the token `POWER`.
pub fn is_kw_power(text: &str, a: usize, b: usize) -> (r: bool)
    requires
        text.is_ascii(),
        a <= b <= text@.len(),
    ensures
        r == spec_is_kw_power(text@.subrange(a as int, b as int)),
{
    if b - a != 5 {
        return false;
    }
    upper_code(text.get_ascii(a)) == 80
        && upper_code(text.get_ascii(a + 1)) == 79
        && upper_code(text.get_ascii(a + 2)) == 87
        && upper_code(text.get_ascii(a + 3)) == 69
        && upper_code(text.get_ascii(a + 4)) == 82
}

/// Whether a word is the token `TIME`.
pub open spec fn spec_is_kw_time(w: Seq<char>) -> bool {
    w.len() == 4 && spec_up(w[0] as u8) == 84 && spec_up(w[1] as u8) == 73 && spec_up(w[2] as u8) == 77 && spec_up(w[3] as u8) == 69
}

/// Whether the word at `[a, b)` of `text` is the token `TIME`.
pub fn is_kw_time(text: &str, a: usize, b: usize) -> (r: bool)
    requires
        text.is_ascii(),
        a <= b <= text@.len(),
    ensures
        r == spec_is_kw_time(text@.subrange(a as int, b as int)),
{
    if b - a != 4 {
        return false;
    }
    upper_code(text.get_ascii(a)) == 84
        && upper_code(text.get_ascii(a + 1)) == 73
        && upper_code(text.get_ascii(a + 2)) == 77
        && upper_code(text.get_ascii(a + 3)) == 69
}

/// Whether a word is the token `CLOCKTIME`.
pub open spec fn spec_is_kw_clocktime(w: Seq<char>) -> bool {
    w.len() == 9 && spec_up(w[0] as u8) == 67 && spec_up(w[1] as u8) == 76 && spec_up(w[2] as u8) == 79 && spec_up(w[3] as u8) == 67 && spec_up(w[4] as u8) == 75 && spec_up(w[5] as u8) == 84 && spec_up(w[6] as u8) == 73 && spec_up(w[7] as u8) == 77 && spec_up(w[8] as u8) == 69
}

/// Whether the word at `[a, b)` of `text` is the token `CLOCKTIME`.
pub fn is_kw_clocktime(text: &str, a: usize, b: usize) -> (r: bool)
    requires
        text.is_ascii(),
        a <= b <= text@.len(),
    ensures
        r == spec_is_kw_clocktime(text@.subrange(a as int, b as int)),
{
    if b - a != 9 {
        return false;
    }
    upper_code(text.get_ascii(a)) == 67
        && upper_code(text.get_ascii(a + 1)) == 76
        && upper_code(text.get_ascii(a + 2)) == 79
        && upper_code(text.get_ascii(a + 3)) == 67
        && upper_code(text.get_ascii(a + 4)) == 75
        && upper_code(text.get_ascii(a + 5)) == 84
        && upper_code(text.get_ascii(a + 6)) == 73
        && upper_code(text.get_ascii(a + 7)) == 77
        && upper_code(text.get_ascii(a + 8)) == 69
}

/// Whether a word is the token `FILLTIME`.
pub open spec fn spec_is_kw_filltime(w: Seq<char>) -> bool {
    w.len() == 8 && spec_up(w[0] as u8) == 70 && spec_up(w[1] as u8) == 73 && spec_up(w[2] as u8) == 76 && spec_up(w[3] as u8) == 76 && spec_up(w[4] as u8) == 84 && spec_up(w[5] as u8) == 73 && spec_up(w[6] as u8) == 77 && spec_up(w[7] as u8) == 69
}

/// Whether the word at `[a, b)` of `text` is the token `FILLTIME`.
pub fn is_kw_filltime(text: &str, a: usize, b: usize) -> (r: bool)
    requires
        text.is_ascii(),
        a <= b <= text@.len(),
    ensures
        r == spec_is_kw_filltime(text@.subrange(a as int, b as int)),
{
    if b - a != 8 {
        return false;
    }
    upper_code(text.get_ascii(a)) == 70
        && upper_code(text.get_ascii(a + 1)) == 73
        && upper_code(text.get_ascii(a + 2)) == 76
        && upper_code(text.get_ascii(a + 3)) == 76
        && upper_code(text.get_ascii(a + 4)) == 84
        && upper_code(text.get_ascii(a + 5)) == 73
        && upper_code(text.get_ascii(a + 6)) == 77
        && upper_code(text.get_ascii(a + 7)) == 69
}

/// Whether a word is the token `DRAINTIME`.
pub open spec fn spec_is_kw_draintime(w: Seq<char>) -> bool {
    w.len() == 9 && spec_up(w[0] as u8) == 68 && spec_up(w[1] as u8) == 82 && spec_up(w[2] as u8) == 65 && spec_up(w[3] as u8) == 73 && spec_up(w[4] as u8) == 78 && spec_up(w[5] as u8) == 84 && spec_up(w[6] as u8) == 73 && spec_up(w[7] as u8) == 77 && spec_up(w[8] as u8) == 69
}

/// Whether the word at `[a, b)` of `text` is the token `DRAINTIME`.
pub fn is_kw_draintime(text: &str, a: usize, b: usize) -> (r: bool)
    requires
        text.is_ascii(),
        a <= b <= text@.len(),
    ensures
        r == spec_is_kw_draintime(text@.subrange(a as int, b as int)),
{
    if b - a != 9 {
        return false;
    }
    upper_code(text.get_ascii(a)) == 68
        && upper_code(text.get_ascii(a + 1)) == 82
        && upper_code(text.get_ascii(a + 2)) == 65
        && upper_code(text.get_ascii(a + 3)) == 73
        && upper_code(text.get_ascii(a + 4)) == 78
        && upper_code(text.get_ascii(a + 5)) == 84
        && upper_code(text.get_ascii(a + 6)) == 73
        && upper_code(text.get_ascii(a + 7)) == 77
        && upper_code(text.get_ascii(a + 8)) == 69
}

/// Whether a word is the token `OPEN`.
pub open spec fn spec_is_kw_open(w: Seq<char>) -> bool {
    w.len() == 4 && spec_up(w[0] as u8) == 79 && spec_up(w[1] as u8) == 80 && spec_up(w[2] as u8) == 69 && spec_up(w[3] as u8) == 78
}

/// Whether the word at `[a, b)` of `text` is the token `OPEN`.
pub fn is_kw_open(text: &str, a: usize, b: usize) -> (r: bool)
    requires
        text.is_ascii(),
        a <= b <= text@.len(),
    ensures
        r == spec_is_kw_open(text@.subrange(a as int, b as int)),
{
    if b - a != 4 {
        return false;
    }
    upper_code(text.get_ascii(a)) == 79
        && upper_code(text.get_ascii(a + 1)) == 80
        && upper_code(text.get_ascii(a + 2)) == 69
        && upper_code(text.get_ascii(a + 3)) == 78
}

/// Whether a word is the token `CLOSED`.
pub open spec fn spec_is_kw_closed(w: Seq<char>) -> bool {
    w.len() == 6 && spec_up(w[0] as u8) == 67 && spec_up(w[1] as u8) == 76 && spec_up(w[2] as u8) == 79 && spec_up(w[3] as u8) == 83 && spec_up(w[4] as u8) == 69 && spec_up(w[5] as u8) == 68
}

/// Whether the word at `[a, b)` of `text` is the token `CLOSED`.
pub fn is_kw_closed(text: &str, a: usize, b: usize) -> (r: bool)
    requires
        text.is_ascii(),
        a <= b <= text@.len(),
    ensures
        r == spec_is_kw_closed(text@.subrange(a as int, b as int)),
{
    if b - a != 6 {
        return false;
    }
    upper_code(text.get_ascii(a)) == 67
        && upper_code(text.get_ascii(a + 1)) == 76
        && upper_code(text.get_ascii(a + 2)) == 79
        && upper_code(text.get_ascii(a + 3)) == 83
        && upper_code(text.get_ascii(a + 4)) == 69
        && upper_code(text.get_ascii(a + 5)) == 68
}

/// Whether a word is the token `ACTIVE`.
pub open spec fn spec_is_kw_active(w: Seq<char>) -> bool {
    w.len() == 6 && spec_up(w[0] as u8) == 65 && spec_up(w[1] as u8) == 67 && spec_up(w[2] as u8) == 84 && spec_up(w[3] as u8) == 73 && spec_up(w[4] as u8) == 86 && spec_up(w[5] as u8) == 69
}

/// Whether the word at `[a, b)` of `text` is the token `ACTIVE`.
pub fn is_kw_active(text: &str, a: usize, b: usize) -> (r: bool)
    requires
        text.is_ascii(),
        a <= b <= text@.len(),
    ensures
        r == spec_is_kw_active(text@.subrange(a as int, b as int)),
{
    if b - a != 6 {
        return false;
    }
    upper_code(text.get_ascii(a)) == 65
        && upper_code(text.get_ascii(a + 1)) == 67
        && upper_code(text.get_ascii(a + 2)) == 84
        && upper_code(text.get_ascii(a + 3)) == 73
        && upper_code(text.get_ascii(a + 4)) == 86
        && upper_code(text.get_ascii(a + 5)) == 69
}

/// Whether a word is the token `IS`.
pub open spec fn spec_is_kw_is(w: Seq<char>) -> bool {
    w.len() == 2 && spec_up(w[0] as u8) == 73 && spec_up(w[1] as u8) == 83
}

/// Whether the word at `[a, b)` of `text` is the token `IS`.
pub fn is_kw_is(text: &str, a: usize, b: usize) -> (r: bool)
    requires
        text.is_ascii(),
        a <= b <= text@.len(),
    ensures
        r == spec_is_kw_is(text@.subrange(a as int, b as int)),
{
    if b - a != 2 {
        return false;
    }
    upper_code(text.get_ascii(a)) == 73
        && upper_code(text.get_ascii(a + 1)) == 83
}

/// Whether a word is the token `NOT`.
pub open spec fn spec_is_kw_not(w: Seq<char>) -> bool {
    w.len() == 3 && spec_up(w[0] as u8) == 78 && spec_up(w[1] as u8) == 79 && spec_up(w[2] as u8) == 84
}

/// Whether the word at `[a, b)` of `text` is the token `NOT`.
pub fn is_kw_not(text: &str, a: usize, b: usize) -> (r: bool)
    requires
        text.is_ascii(),
        a <= b <= text@.len(),
    ensures
        r == spec_is_kw_not(text@.subrange(a as int, b as int)),
{
    if b - a != 3 {
        return false;
    }
    upper_code(text.get_ascii(a)) == 78
        && upper_code(text.get_ascii(a + 1)) == 79
        && upper_code(text.get_ascii(a + 2)) == 84
}

/// Whether a word is the token `BELOW`.
pub open spec fn spec_is_kw_below(w: Seq<char>) -> bool {
    w.len() == 5 && spec_up(w[0] as u8) == 66 && spec_up(w[1] as u8) == 69 && spec_up(w[2] as u8) == 76 && spec_up(w[3] as u8) == 79 && spec_up(w[4] as u8) == 87
}

/// Whether the word at `[a, b)` of `text` is the token `BELOW`.
pub fn is_kw_below(text: &str, a: usize, b: usize) -> (r: bool)
    requires
        text.is_ascii(),
        a <= b <= text@.len(),
    ensures
        r == spec_is_kw_below(text@.subrange(a as int, b as int)),
{
    if b - a != 5 {
        return false;
    }
    upper_code(text.get_ascii(a)) == 66
        && upper_code(text.get_ascii(a + 1)) == 69
        && upper_code(text.get_ascii(a + 2)) == 76
        && upper_code(text.get_ascii(a + 3)) == 79
        && upper_code(text.get_ascii(a + 4)) == 87
}

/// Whether a word is the token `ABOVE`.
pub open spec fn spec_is_kw_above(w: Seq<char>) -> bool {
    w.len() == 5 && spec_up(w[0] as u8) == 65 && spec_up(w[1] as u8) == 66 && spec_up(w[2] as u8) == 79 && spec_up(w[3] as u8) == 86 && spec_up(w[4] as u8) == 69
}

/// Whether the word at `[a, b)` of `text` is the token `ABOVE`.
pub fn is_kw_above(text: &str, a: usize, b: usize) -> (r: bool)
    requires
        text.is_ascii(),
        a <= b <= text@.len(),
    ensures
        r == spec_is_kw_above(text@.subrange(a as int, b as int)),
{
    if b - a != 5 {
        return false;
    }
    upper_code(text.get_ascii(a)) == 65
        && upper_code(text.get_ascii(a + 1)) == 66
        && upper_code(text.get_ascii(a + 2)) == 79
        && upper_code(text.get_ascii(a + 3)) == 86
        && upper_code(text.get_ascii(a + 4)) == 69
}

/// Whether a word is the token `=`.
pub open spec fn spec_is_eq_sym(w: Seq<char>) -> bool {
    w.len() == 1 && w[0] as u8 == 61
}

/// Whether the word at `[a, b)` of `text` is the token `=`.
pub fn is_eq_sym(text: &str, a: usize, b: usize) -> (r: bool)
    requires
        text.is_ascii(),
        a <= b <= text@.len(),
    ensures
        r == spec_is_eq_sym(text@.subrange(a as int, b as int)),
{
    if b - a != 1 {
        return false;
    }
    text.get_ascii(a) == 61
}

/// Whether a word is the token `<>`.
pub open spec fn spec_is_ne_sym(w: Seq<char>) -> bool {
    w.len() == 2 && w[0] as u8 == 60 && w[1] as u8 == 62
}

/// Whether the word at `[a, b)` of `text` is the token `<>`.
pub fn is_ne_sym(text: &str, a: usize, b: usize) -> (r: bool)
    requires
        text.is_ascii(),
        a <= b <= text@.len(),
    ensures
        r == spec_is_ne_sym(text@.subrange(a as int, b as int)),
{
    if b - a != 2 {
        return false;
    }
    text.get_ascii(a) == 60
        && text.get_ascii(a + 1) == 62
}

/// Whether a word is the token `<=`.
pub open spec fn spec_is_le_sym(w: Seq<char>) -> bool {
    w.len() == 2 && w[0] as u8 == 60 && w[1] as u8 == 61
}

/// Whether the word at `[a, b)` of `text` is the token `<=`.
pub fn is_le_sym(text: &str, a: usize, b: usize) -> (r: bool)
    requires
        text.is_ascii(),
        a <= b <= text@.len(),
    ensures
        r == spec_is_le_sym(text@.subrange(a as int, b as int)),
{
    if b - a != 2 {
        return false;
    }
    text.get_ascii(a) == 60
        && text.get_ascii(a + 1) == 61
}

/// Whether a word is the token `>=`.
pub open spec fn spec_is_ge_sym(w: Seq<char>) -> bool {
    w.len() == 2 && w[0] as u8 == 62 && w[1] as u8 == 61
}

/// Whether the word at `[a, b)` of `text` is the token `>=`.
pub fn is_ge_sym(text: &str, a: usize, b: usize) -> (r: bool)
    requires
        text.is_ascii(),
        a <= b <= text@.len(),
    ensures
        r == spec_is_ge_sym(text@.subrange(a as int, b as int)),
{
    if b - a != 2 {
        return false;
    }
    text.get_ascii(a) == 62
        && text.get_ascii(a + 1) == 61
}

/// Whether a word is the token `<`.
pub open spec fn spec_is_lt_sym(w: Seq<char>) -> bool {
    w.len() == 1 && w[0] as u8 == 60
}

/// Whether the word at `[a, b)` of `text` is the token `<`.
pub fn is_lt_sym(text: &str, a: usize, b: usize) -> (r: bool)
    requires
        text.is_ascii(),
        a <= b <= text@.len(),
    ensures
        r == spec_is_lt_sym(text@.subrange(a as int, b as int)),
{
    if b - a != 1 {
        return false;
    }
    text.get_ascii(a) == 60
}

/// Whether a word is the token `>`.
pub open spec fn spec_is_gt_sym(w: Seq<char>) -> bool {
    w.len() == 1 && w[0] as u8 == 62
}

/// Whether the word at `[a, b)` of `text` is the token `>`.
pub fn is_gt_sym(text: &str, a: usize, b: usize) -> (r: bool)
    requires
        text.is_ascii(),
        a <= b <= text@.len(),
    ensures
        r == spec_is_gt_sym(text@.subrange(a as int, b as int)),
{
    if b - a != 1 {
        return false;
    }
    text.get_ascii(a) == 62
}

} // verus!
