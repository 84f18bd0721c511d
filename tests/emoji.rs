use wethr::emoji::{icon_rule, is_match};
use wethr::weather::emoji::get_emoji as weather_icon;

#[test]
fn get_emoji() {
        assert_eq!(wethr::emoji::get_emoji("clear sky"), Some("â˜€ï¸"));
        assert_eq!(wethr::emoji::get_emoji("few clouds"), Some("â›…"));
        assert_eq!(wethr::emoji::get_emoji("scattered clouds"), Some("â˜ï¸"));
        assert_eq!(wethr::emoji::get_emoji("broken clouds"), Some("â˜ï¸â˜ï¸"));
        assert_eq!(wethr::emoji::get_emoji("overcast clouds"), Some("â˜ï¸â˜ï¸"));
        assert_eq!(wethr::emoji::get_emoji("thunderstorm"), Some("â›ˆ"));
        assert_eq!(wethr::emoji::get_emoji("snow"), Some("ğŸŒ¨"));
        assert_eq!(wethr::emoji::get_emoji("sleet"), Some("ğŸŒ¨"));
        assert_eq!(wethr::emoji::get_emoji("drizzle"), Some("ğŸŒ§"));
        assert_eq!(wethr::emoji::get_emoji("rain"), Some("ğŸŒ§"));
        assert_eq!(wethr::emoji::get_emoji("mist"), Some("ğŸŒ«"));
        assert_eq!(wethr::emoji::get_emoji("smoke"), Some("ğŸŒ«"));
        assert_eq!(wethr::emoji::get_emoji("haze"), Some("ğŸŒ«"));
        assert_eq!(wethr::emoji::get_emoji("fog"), Some("ğŸŒ«"));
        assert_eq!(wethr::emoji::get_emoji("sand"), Some("ğŸŒ«"));
        assert_eq!(wethr::emoji::get_emoji("dust"), Some("ğŸŒ«"));
        assert_eq!(wethr::emoji::get_emoji("ash"), Some("ğŸŒ«"));
        assert_eq!(wethr::emoji::get_emoji("squalls"), Some("ğŸŒ«"));
        assert_eq!(wethr::emoji::get_emoji("tornado"), Some("ğŸŒª"));
        assert_eq!(wethr::emoji::get_emoji("hurricane"), Some("ğŸŒª"));
        assert_eq!(wethr::emoji::get_emoji("tropical storm"), Some("ğŸŒª"));
}

#[test]
fn double_cloud_for_broken_and_overcast() {
    assert_eq!(weather_icon("overcast clouds"), Some("\u{2601}\u{fe0f}\u{2601}\u{fe0f}"));
    assert_eq!(weather_icon("broken clouds"), Some("\u{2601}\u{fe0f}\u{2601}\u{fe0f}"));
    assert_eq!(weather_icon("clear sky"), Some("\u{2600}\u{fe0f}"));
    assert_eq!(weather_icon("sunny with a chance of meatballs"), None);
    assert_eq!(weather_icon(""), None);
}

#[test]
fn weather_icons_for_every_rule() {
    assert_eq!(weather_icon("few clouds"), Some("\u{26c5}"));
    assert_eq!(weather_icon("scattered clouds"), Some("\u{2601}\u{fe0f}"));
    assert_eq!(weather_icon("thunderstorm with light rain"), Some("\u{26c8}"));
    assert_eq!(weather_icon("light snow"), None);
    assert_eq!(weather_icon("snow"), Some("\u{1f328}"));
    assert_eq!(weather_icon("rain and snow"), Some("\u{1f327}"));
    assert_eq!(weather_icon("haze"), Some("\u{1f32b}"));
    assert_eq!(weather_icon("tropical storm"), Some("\u{1f32a}"));
}

#[test]
fn first_matching_rule_wins() {
    assert_eq!(icon_rule("clear sky"), Some(0));
    assert_eq!(icon_rule("overcast clouds"), Some(3));
    assert_eq!(icon_rule("squalls"), Some(7));
    assert_eq!(icon_rule("hurricane"), Some(8));
    assert_eq!(icon_rule("drizzle"), Some(6));
    assert_eq!(icon_rule("cloudy"), None);
}

#[test]
fn pattern_alternatives() {
    assert!(is_match("overcast clouds", "broken clouds|overcast clouds"));
    assert!(is_match("ash falling", "mist|ash"));
    assert!(!is_match("a mist", "mist|ash"));
    assert!(is_match("anything", ""));
    assert!(is_match("x", "y||z"));
    assert!(!is_match("", "a|b"));
    assert!(is_match("jo\u{e3}o", "jo\u{e3}"));
}
