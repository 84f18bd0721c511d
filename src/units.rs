//! The two unit systems a report can be given in.

use vstd::prelude::*;

verus! {

/// Unit system of a weather report.
#[derive(Clone, Copy, Debug, PartialEq, Eq, Structural, Hash, PartialOrd, Ord)]
pub enum Units {
    Celsius,
    Fahrenheit,
}

impl Default for Units {
    fn default() -> (r: Self)
        ensures
            r == Units::Celsius,
    {
        Units::Celsius
    }
}

/// The temperature symbol of a unit system.
pub open spec fn symbol_spec(u: Units) -> Seq<char> {
    match u {
        Units::Celsius => "C"@,
        Units::Fahrenheit => "F"@,
    }
}

/// The name of a unit system in a weather query.
pub open spec fn query_name_spec(u: Units) -> Seq<char> {
    match u {
        Units::Celsius => "metric"@,
        Units::Fahrenheit => "imperial"@,
    }
}

/// `s` is the single letter `upper`, in either case (ASCII letters).
pub open spec fn is_letter_ignore_case(s: Seq<char>, upper: char) -> bool {
    s.len() == 1 && (s[0] == upper || s[0] as u32 == upper as u32 + 32)
}

/// The unit system that command-line flags select: the metric flag first, then
/// the imperial one, then a unit letter `C` or `F` in either case.
pub open spec fn units_from_flags_spec(metric: bool, imperial: bool, unit: Option<Seq<char>>) -> Option<
    Units,
> {
    if metric {
        Some(Units::Celsius)
    } else if imperial {
        Some(Units::Fahrenheit)
    } else {
        match unit {
            Some(u) => if is_letter_ignore_case(u, 'C') {
                Some(Units::Celsius)
            } else if is_letter_ignore_case(u, 'F') {
                Some(Units::Fahrenheit)
            } else {
                None
            },
            None => None,
        }
    }
}

fn is_letter(s: &str, upper: char) -> (r: bool)
    requires
        'A' <= upper <= 'Z',
    ensures
        r == is_letter_ignore_case(s@, upper),
{
    if s.unicode_len() != 1 {
        return false;
    }
    let c = s.get_char(0);
    c == upper || c as u32 == upper as u32 + 32
}

impl Units {
    /// The temperature symbol: `C` or `F`.
    pub fn symbol(&self) -> (r: &'static str)
        ensures
            r@ == symbol_spec(*self),
    {
        match self {
            Units::Celsius => "C",
            Units::Fahrenheit => "F",
        }
    }

    /// The name used in a weather query: `metric` or `imperial`.
    pub fn to_string(&self) -> (r: String)
        ensures
            r@ == query_name_spec(*self),
    {
        match self {
            Units::Celsius => String::from_str("metric"),
            Units::Fahrenheit => String::from_str("imperial"),
        }
    }

    /// The unit system that command-line flags select, if any.
    pub fn from_flags(metric: bool, imperial: bool, unit: Option<&str>) -> (r: Option<Units>)
        ensures
            r == units_from_flags_spec(metric, imperial, unit.deep_view()),
    {
        if metric {
            Some(Units::Celsius)
        } else if imperial {
            Some(Units::Fahrenheit)
        } else {
            match unit {
                Some(u) => {
                    if is_letter(u, 'C') {
                        Some(Units::Celsius)
                    } else if is_letter(u, 'F') {
                        Some(Units::Fahrenheit)
                    } else {
                        None
                    }
                },
                None => None,
            }
        }
    }
}

} // verus!
