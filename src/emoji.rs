//! The ordered keyword table that classifies a weather description, and the
//! icons in Windows-1252 form: the UTF-8 bytes of each icon read as
//! Windows-1252 characters, the bytes that code page leaves undefined dropped.
//! A terminal that decodes its output as Windows-1252 shows them as icons.

use vstd::prelude::*;

use crate::text::{split_on, starts_with, starts_with_spec};

verus! {

/// Number of rules in the keyword table.
pub const RULE_COUNT: usize = 9;

/// `text` begins with one of the `|`-separated alternatives of `pattern`.
pub open spec fn matches_pattern(text: Seq<char>, pattern: Seq<char>) -> bool {
    exists|k: int|
        0 <= k < split_on(pattern, '|').len() && starts_with_spec(
            text,
            #[trigger] split_on(pattern, '|')[k],
        )
}

/// Whether `text` begins with one of the `|`-separated alternatives of `pattern`.
pub fn is_match(text: &str, pattern: &str) -> (r: bool)
    ensures
        r == matches_pattern(text@, pattern@),
{
    let n = pattern.unicode_len();
    let mut start: usize = 0;
    let mut found = false;
    let mut i: usize = 0;
    proof {
        assert(pattern@.subrange(0, 0) =~= Seq::<char>::empty());
    }
    while i < n
        invariant
            n == pattern@.len(),
            start <= i <= n,
            split_on(pattern@.subrange(0, i as int), '|').len() >= 1,
            split_on(pattern@.subrange(0, i as int), '|').last() == pattern@.subrange(
                start as int,
                i as int,
            ),
            found == exists|k: int|
                0 <= k < split_on(pattern@.subrange(0, i as int), '|').len() - 1
                    && starts_with_spec(
                    text@,
                    #[trigger] split_on(pattern@.subrange(0, i as int), '|')[k],
                ),
        decreases n - i,
    {
        let ghost prev = split_on(pattern@.subrange(0, i as int), '|');
        let ghost next_s = pattern@.subrange(0, i + 1);
        assert(next_s.drop_last() =~= pattern@.subrange(0, i as int));
        assert(next_s.last() == pattern@[i as int]);
        let c = pattern.get_char(i);
        if c == '|' {
            let piece = pattern.substring_char(start, i);
            let hit = starts_with(text, piece);
            proof {
                let next = split_on(next_s, '|');
                assert(next == prev.push(Seq::<char>::empty()));
                if hit {
                    assert(next[prev.len() - 1] == piece@);
                }
                if found {
                    let k = choose|k: int|
                        0 <= k < prev.len() - 1 && starts_with_spec(text@, #[trigger] prev[k]);
                    assert(next[k] == prev[k]);
                }
                if !found && !hit {
                    assert forall|k: int| 0 <= k < next.len() - 1 implies !starts_with_spec(
                        text@,
                        #[trigger] next[k],
                    ) by {
                        assert(next[k] == prev[k]);
                    }
                }
                assert(pattern@.subrange(i + 1, i + 1) =~= Seq::<char>::empty());
            }
            found = found || hit;
            start = i + 1;
        } else {
            proof {
                let next = split_on(next_s, '|');
                assert(next == prev.update(prev.len() - 1, prev.last().push(c)));
                assert(pattern@.subrange(start as int, i + 1) =~= prev.last().push(c));
                if found {
                    let k = choose|k: int|
                        0 <= k < prev.len() - 1 && starts_with_spec(text@, #[trigger] prev[k]);
                    assert(next[k] == prev[k]);
                }
                if !found {
                    assert forall|k: int| 0 <= k < next.len() - 1 implies !starts_with_spec(
                        text@,
                        #[trigger] next[k],
                    ) by {
                        assert(next[k] == prev[k]);
                    }
                }
            }
        }
        i = i + 1;
    }
    let piece = pattern.substring_char(start, n);
    let hit = starts_with(text, piece);
    proof {
        let parts = split_on(pattern@, '|');
        assert(pattern@.subrange(0, n as int) =~= pattern@);
        if found {
            let k = choose|k: int|
                0 <= k < parts.len() - 1 && starts_with_spec(text@, #[trigger] parts[k]);
        }
        if hit {
            assert(parts[parts.len() - 1] == piece@);
        }
        if !found && !hit {
            assert forall|k: int| 0 <= k < parts.len() implies !starts_with_spec(
                text@,
                #[trigger] parts[k],
            ) by {
                if k == parts.len() - 1 {
                    assert(parts[k] == piece@);
                }
            }
        }
    }
    found || hit
}

/// The pattern of rule `k` of the keyword table. Earlier rules are the more
/// specific ones, so the order of the table decides the outcome.
pub open spec fn rule_pattern_spec(k: nat) -> Seq<char> {
    if k == 0 {
        "clear sky"@
    } else if k == 1 {
        "few clouds"@
    } else if k == 2 {
        "scattered clouds"@
    } else if k == 3 {
        "broken clouds|overcast clouds"@
    } else if k == 4 {
        "thunderstorm"@
    } else if k == 5 {
        "snow|sleet"@
    } else if k == 6 {
        "drizzle|rain"@
    } else if k == 7 {
        "mist|smoke|haze|fog|sand|dust|ash|squalls"@
    } else {
        "tornado|hurricane|tropical storm"@
    }
}

/// The pattern of rule `k` of the keyword table.
pub fn rule_pattern(k: usize) -> (r: &'static str)
    requires
        k < RULE_COUNT,
    ensures
        r@ == rule_pattern_spec(k as nat),
{
    match k {
        0 => "clear sky",
        1 => "few clouds",
        2 => "scattered clouds",
        3 => "broken clouds|overcast clouds",
        4 => "thunderstorm",
        5 => "snow|sleet",
        6 => "drizzle|rain",
        7 => "mist|smoke|haze|fog|sand|dust|ash|squalls",
        _ => "tornado|hurricane|tropical storm",
    }
}

/// The first rule, at `k` or after, whose pattern `d` matches.
pub open spec fn first_rule_from(d: Seq<char>, k: nat) -> Option<nat>
    decreases RULE_COUNT - k,
{
    if k >= RULE_COUNT {
        None
    } else if matches_pattern(d, rule_pattern_spec(k)) {
        Some(k)
    } else {
        first_rule_from(d, k + 1)
    }
}

proof fn lemma_first_rule_from(d: Seq<char>, k: nat)
    requires
        k <= RULE_COUNT,
    ensures
        match first_rule_from(d, k) {
            Some(j) => {
                &&& k <= j < RULE_COUNT
                &&& matches_pattern(d, rule_pattern_spec(j))
                &&& forall|i: nat| k <= i < j ==> !matches_pattern(d, #[trigger] rule_pattern_spec(i))
            },
            None => forall|i: nat|
                k <= i < RULE_COUNT ==> !matches_pattern(d, #[trigger] rule_pattern_spec(i)),
        },
    decreases RULE_COUNT - k,
{
    if k < RULE_COUNT {
        lemma_first_rule_from(d, k + 1);
    }
}

/// The table is read top to bottom and the first matching rule wins: the
/// rule of a description is one whose pattern it matches, and it matches none
/// of the rules before; a description that matches no rule has none.
pub proof fn lemma_first_match_wins(d: Seq<char>)
    ensures
        match icon_rule_spec(d) {
            Some(k) => {
                &&& k < RULE_COUNT
                &&& matches_pattern(d, rule_pattern_spec(k))
                &&& forall|j: nat| j < k ==> !matches_pattern(d, #[trigger] rule_pattern_spec(j))
            },
            None => forall|j: nat|
                j < RULE_COUNT ==> !matches_pattern(d, #[trigger] rule_pattern_spec(j)),
        },
{
    lemma_first_rule_from(d, 0);
}

/// The rule that classifies description `d`: the first matching one in table
/// order, or none.
pub open spec fn icon_rule_spec(d: Seq<char>) -> Option<nat> {
    first_rule_from(d, 0)
}

/// Classifies a weather description: the index of the first rule of the
/// table whose pattern it matches, read top to bottom.
pub fn icon_rule(description: &str) -> (r: Option<usize>)
    ensures
        match r {
            Some(k) => icon_rule_spec(description@) == Some(k as nat),
            None => icon_rule_spec(description@) is None,
        },
        r is Some ==> r->0 < RULE_COUNT,
{
    let mut k: usize = 0;
    while k < RULE_COUNT
        invariant
            k <= RULE_COUNT,
            icon_rule_spec(description@) == first_rule_from(description@, k as nat),
        decreases RULE_COUNT - k,
    {
        if is_match(description, rule_pattern(k)) {
            return Some(k);
        }
        k = k + 1;
    }
    None
}

/// The icon of rule `k`, in Windows-1252 form.
pub open spec fn legacy_icon_spec(k: nat) -> Seq<char> {
    if k == 0 {
        "\u{e2}\u{2dc}\u{20ac}\u{ef}\u{b8}"@
    } else if k == 1 {
        "\u{e2}\u{203a}\u{2026}"@
    } else if k == 2 {
        "\u{e2}\u{2dc}\u{ef}\u{b8}"@
    } else if k == 3 {
        "\u{e2}\u{2dc}\u{ef}\u{b8}\u{e2}\u{2dc}\u{ef}\u{b8}"@
    } else if k == 4 {
        "\u{e2}\u{203a}\u{2c6}"@
    } else if k == 5 {
        "\u{11f}\u{178}\u{152}\u{a8}"@
    } else if k == 6 {
        "\u{11f}\u{178}\u{152}\u{a7}"@
    } else if k == 7 {
        "\u{11f}\u{178}\u{152}\u{ab}"@
    } else {
        "\u{11f}\u{178}\u{152}\u{aa}"@
    }
}

fn legacy_icon(k: usize) -> (r: &'static str)
    requires
        k < RULE_COUNT,
    ensures
        r@ == legacy_icon_spec(k as nat),
{
    match k {
        0 => "\u{e2}\u{2dc}\u{20ac}\u{ef}\u{b8}",
        1 => "\u{e2}\u{203a}\u{2026}",
        2 => "\u{e2}\u{2dc}\u{ef}\u{b8}",
        3 => "\u{e2}\u{2dc}\u{ef}\u{b8}\u{e2}\u{2dc}\u{ef}\u{b8}",
        4 => "\u{e2}\u{203a}\u{2c6}",
        5 => "\u{11f}\u{178}\u{152}\u{a8}",
        6 => "\u{11f}\u{178}\u{152}\u{a7}",
        7 => "\u{11f}\u{178}\u{152}\u{ab}",
        _ => "\u{11f}\u{178}\u{152}\u{aa}",
    }
}

/// The icon, in Windows-1252 form, for a weather description: that of the
/// first rule of the table that it matches, or none when no rule matches.
pub fn get_emoji(description: &str) -> (r: Option<&'static str>)
    ensures
        match icon_rule_spec(description@) {
            Some(k) => r is Some && r->0@ == legacy_icon_spec(k),
            None => r is None,
        },
{
    match icon_rule(description) {
        Some(k) => Some(legacy_icon(k)),
        None => None,
    }
}

} // verus!
