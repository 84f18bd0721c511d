use wethr::spinner::{format_tpl, style_for, Action, Event, SpinnerColor, SpinnerRun};

#[test]
fn spinner_templates() {
    assert_eq!(format_tpl(SpinnerColor::Blue), "{spinner:.blue} {msg}");
    assert_eq!(format_tpl(SpinnerColor::Yellow), "{spinner:.yellow} {msg}");
    assert_eq!(SpinnerColor::Magenta.to_string(), "magenta");
    assert_eq!(style_for(true, SpinnerColor::Red), None);
    assert_eq!(style_for(false, SpinnerColor::Red).as_deref(), Some("{spinner:.red} {msg}"));
}

#[test]
fn spinner_stops_drawing_once_finished() {
    let mut run = SpinnerRun::new(false);
    assert_eq!(run.step(Event::Tick), Action::Draw);
    assert_eq!(run.step(Event::Tick), Action::Draw);
    assert!(!run.is_finished());
    assert_eq!(run.step(Event::Finished), Action::Stop);
    assert!(run.is_finished());
    let mut drawn = 0;
    for _ in 0..10 {
        if run.step(Event::Tick) == Action::Draw {
            drawn += 1;
        }
    }
    assert_eq!(drawn, 0);
}

#[test]
fn silent_spinner_draws_no_frame() {
    let mut run = SpinnerRun::new(true);
    let mut drawn = 0;
    for _ in 0..10 {
        if run.step(Event::Tick) == Action::Draw {
            drawn += 1;
        }
    }
    assert_eq!(drawn, 0);
    assert_eq!(run.step(Event::Finished), Action::Stop);
    assert!(run.is_finished());
}
