//! Weather icons, chosen by the ordered keyword table.

use vstd::prelude::*;

pub use crate::emoji::is_match;
use crate::emoji::{icon_rule, icon_rule_spec, RULE_COUNT};

verus! {

/// The icon of rule `k` of the keyword table.
pub open spec fn icon_spec(k: nat) -> Seq<char> {
    if k == 0 {
        "\u{2600}\u{fe0f}"@
    } else if k == 1 {
        "\u{26c5}"@
    } else if k == 2 {
        "\u{2601}\u{fe0f}"@
    } else if k == 3 {
        "\u{2601}\u{fe0f}\u{2601}\u{fe0f}"@
    } else if k == 4 {
        "\u{26c8}"@
    } else if k == 5 {
        "\u{1f328}"@
    } else if k == 6 {
        "\u{1f327}"@
    } else if k == 7 {
        "\u{1f32b}"@
    } else {
        "\u{1f32a}"@
    }
}

fn icon(k: usize) -> (r: &'static str)
    requires
        k < RULE_COUNT,
    ensures
        r@ == icon_spec(k as nat),
{
    match k {
        0 => "\u{2600}\u{fe0f}",
        1 => "\u{26c5}",
        2 => "\u{2601}\u{fe0f}",
        3 => "\u{2601}\u{fe0f}\u{2601}\u{fe0f}",
        4 => "\u{26c8}",
        5 => "\u{1f328}",
        6 => "\u{1f327}",
        7 => "\u{1f32b}",
        _ => "\u{1f32a}",
    }
}

/// The icon for a weather description: that of the first rule of the table
/// that it matches, or none when no rule matches.
pub fn get_emoji(description: &str) -> (r: Option<&'static str>)
    ensures
        match icon_rule_spec(description@) {
            Some(k) => r is Some && r->0@ == icon_spec(k),
            None => r is None,
        },
{
    match icon_rule(description) {
        Some(k) => Some(icon(k)),
        None => None,
    }
}

} // verus!
