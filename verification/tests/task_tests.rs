use organizer::task::{Message, SnoozeDuration, Task, FADE_OUT_TIME};
use organizer::time::{Duration, Ratio, Time};

#[test]
fn correct_task_description() {
    let mut task = Task::new(1);

    task.edit("This is a test task");
    assert_eq!("This is a test task", task.description());
}

#[test]
fn empty_task_description() {
    let task = Task::new(1);
    assert_eq!("", task.description());
}

#[test]
fn edit_description() {
    let mut task = Task::new(1);
    task.edit("This is a test task");

    task.edit("Edited task description");
    assert_eq!("Edited task description", task.description());
}

#[test]
fn edit_to_empty() {
    let mut task = Task::new(1);
    task.edit("This is a test task");

    task.edit("");
    assert_eq!("", task.description());
}

#[test]
fn edit_from_empty() {
    let mut task = Task::new(1);

    task.edit("A description");
    assert_eq!("A description", task.description());
}

#[test]
fn completed_or_not_completed() {
    let mut task = Task::new(1);
    assert!(!task.completed());

    task.set_completed(false);
    assert!(!task.completed());

    task.set_completed(false);
    assert!(!task.completed());

    task.set_completed(true);
    assert!(task.completed());

    task.set_completed(true);
    assert!(task.completed());

    task.set_completed(false);
    assert!(!task.completed());
}

#[test]
fn set_completion_time() {
    let mut task = Task::new(1);
    assert!(task.completion_time.is_none());

    task.set_completed(true);
    assert!(task.completion_time.is_some());
}

#[test]
fn visible_as_pending_test() {
    let mut task = Task::new(1);

    task.set_completed(false);
    assert!(task.visible_as_pending());

    task.set_completed(true);
    task.completion_time = Option::Some(Time::now());
    assert!(task.visible_as_pending());

    let far_away_time = Time::from("Sat, 21 Jan 2023 12:25:20 +0100");
    task.completion_time = Option::Some(far_away_time);
    assert!(!task.visible_as_pending());
}

fn noon() -> Time {
    Time::from("Sat, 21 Jan 2023 12:00:00 +0100")
}

fn as_float(ratio: Ratio) -> f32 {
    ratio.numerator as f32 / ratio.denominator as f32
}

#[test]
fn a_new_task_is_pending_and_awake() {
    let task = Task::new_at(7, noon());
    assert_eq!(task.id, 7);
    assert!(!task.completed());
    assert_eq!(task.description(), "");
    assert!(task.creation_time == noon());
    assert!(task.completion_time.is_none());
    assert!(!task.snooze_information.visible);
    assert_eq!(task.snooze_information.quantity, 1);
    assert!(task.snooze_information.snooze_until.is_none());
    assert!(task.visible_as_pending_at(&noon()));
    assert!(!task.hidden_because_of_snooze_at(&noon()));
    assert!(!task.hidden_because_of_snooze());
    assert_eq!(task.opacity_at(&noon()), Ratio { numerator: 86_400, denominator: 86_400 });
}

#[test]
fn reopening_clears_the_completion_time() {
    let mut task = Task::new_at(1, noon());
    task.set_completed_at(true, noon());
    assert!(task.completed());
    assert!(task.completion_time.unwrap() == noon());
    assert_eq!(task.completion_time.unwrap().utc_offset(), 3600);
    task.set_completed_at(false, noon());
    assert!(!task.completed());
    assert!(task.completion_time.is_none());
    task.set_completed(true);
    task.set_completed(false);
    assert!(task.completion_time.is_none());
}

#[test]
fn a_completed_task_fades_for_a_day() {
    assert_eq!(FADE_OUT_TIME, 1440);
    let done = noon();
    let mut task = Task::new_at(1, done);
    task.set_completed_at(true, done);

    let half_an_hour_later = &done + &Duration::from_minutes(30);
    assert!(task.visible_as_pending_at(&half_an_hour_later));
    let opacity = task.opacity_at(&half_an_hour_later);
    assert_eq!(opacity, Ratio { numerator: 84_600, denominator: 86_400 });
    assert!((as_float(opacity) - 0.9792).abs() < 1e-4);

    let at_once = task.opacity_at(&done);
    assert_eq!(at_once, Ratio { numerator: 86_400, denominator: 86_400 });

    let just_inside = &done + &Duration::from_seconds(86_399);
    assert!(task.visible_as_pending_at(&just_inside));
    assert_eq!(task.opacity_at(&just_inside), Ratio { numerator: 1, denominator: 86_400 });

    let a_day_later = &done + &Duration::from_minutes(1440);
    assert!(!task.visible_as_pending_at(&a_day_later));
    assert_eq!(task.opacity_at(&a_day_later), Ratio { numerator: 86_400, denominator: 86_400 });

    let much_later = &done + &Duration::from_hours(100);
    assert!(!task.visible_as_pending_at(&much_later));
}

#[test]
fn opacity_never_leaves_zero_to_one() {
    let done = noon();
    let mut task = Task::new_at(1, done);
    task.set_completed_at(true, done);
    let before_it_was_done = &done - &Duration::from_hours(5);
    assert!(task.visible_as_pending_at(&before_it_was_done));
    assert_eq!(
        task.opacity_at(&before_it_was_done),
        Ratio { numerator: 86_400, denominator: 86_400 }
    );
    task.completion_time = None;
    assert!(task.visible_as_pending_at(&done));
    assert_eq!(task.opacity_at(&done), Ratio { numerator: 86_400, denominator: 86_400 });
}

#[test]
fn snoozes_stack() {
    let now = noon();
    let mut task = Task::new_at(1, now);
    task.add_snooze_time();
    assert!(task.snooze_information.visible);
    assert!(task.snooze_information.snooze_until.is_none());

    task.set_snooze_duration(SnoozeDuration::Hour, now);
    assert!(!task.snooze_information.visible);
    let until = task.snooze_information.snooze_until.unwrap();
    assert_eq!(until.to_string(), "Sat, 21 Jan 2023 13:00:00 +0100");
    assert!(task.hidden_because_of_snooze_at(&now));
    assert!(!task.hidden_because_of_snooze_at(&until));
    assert!(!task.hidden_because_of_snooze_at(&(&until + &Duration::from_seconds(1))));
    assert!(task.hidden_because_of_snooze_at(&(&until - &Duration::from_seconds(1))));

    let later = &now + &Duration::from_minutes(10);
    task.set_snooze_duration(SnoozeDuration::Day, later);
    let until = task.snooze_information.snooze_until.unwrap();
    assert_eq!(until.to_string(), "Sun, 22 Jan 2023 13:00:00 +0100");

    task.unsnooze();
    assert!(task.snooze_information.snooze_until.is_none());
    assert!(!task.snooze_information.visible);
    assert!(!task.hidden_because_of_snooze_at(&now));
}

#[test]
fn snooze_units() {
    assert_eq!(SnoozeDuration::Hour.span(1), Duration::from_hours(1));
    assert_eq!(SnoozeDuration::Day.span(1), Duration::from_hours(24));
    assert_eq!(SnoozeDuration::Week.span(1), Duration::from_hours(168));
    assert_eq!(SnoozeDuration::Month.span(1), Duration::from_hours(720));
    assert_eq!(SnoozeDuration::Week.span(3), Duration::from_hours(504));
    assert_eq!(SnoozeDuration::Hour.span(0), Duration::from_hours(0));
    assert_eq!(
        SnoozeDuration::Month.span(u32::MAX).num_seconds(),
        4_294_967_295_i64 * 720 * 3600
    );
}

#[test]
fn snooze_quantity_is_read_from_text() {
    let now = noon();
    let mut task = Task::new_at(1, now);
    task.set_snooze_quantity("3");
    assert_eq!(task.snooze_information.quantity, 3);
    task.set_snooze_quantity("");
    assert_eq!(task.snooze_information.quantity, 1);
    task.set_snooze_quantity("12");
    task.set_snooze_quantity("a dozen");
    assert_eq!(task.snooze_information.quantity, 1);
    task.set_snooze_quantity("2");
    task.set_snooze_duration(SnoozeDuration::Week, now);
    let until = task.snooze_information.snooze_until.unwrap();
    assert_eq!(until.to_string(), "Sat, 4 Feb 2023 12:00:00 +0100");
    assert_eq!(task.snooze_information.quantity, 2);
}

#[test]
fn a_snooze_beyond_the_last_year_stops_there() {
    let now = noon();
    let mut task = Task::new_at(1, now);
    task.set_snooze_quantity("4294967295");
    task.set_snooze_duration(SnoozeDuration::Month, now);
    let until = task.snooze_information.snooze_until.unwrap();
    assert_eq!(until.to_string(), "Fri, 31 Dec 9999 23:59:59 +0100");
    assert!(task.hidden_because_of_snooze_at(&now));
}

#[test]
fn messages_drive_the_task() {
    let now = noon();
    let mut task = Task::new_at(1, now);
    task.update_at(Message::TextInput("Water the plants".to_string()), now);
    assert_eq!(task.description(), "Water the plants");
    task.update_at(Message::ToggleTaskCompletion(true), now);
    assert!(task.completed());
    assert!(task.completion_time.unwrap() == now);
    task.update_at(Message::ToggleTaskCompletion(false), now);
    assert!(!task.completed());
    assert!(task.completion_time.is_none());
    task.update_at(Message::AddSnoozeTime, now);
    assert!(task.snooze_information.visible);
    task.update_at(Message::SetSnoozeQuantity("5".to_string()), now);
    assert_eq!(task.snooze_information.quantity, 5);
    task.update_at(Message::SetSnoozeDuration(SnoozeDuration::Hour), now);
    assert_eq!(
        task.snooze_information.snooze_until.unwrap().to_string(),
        "Sat, 21 Jan 2023 17:00:00 +0100"
    );
    task.update_at(Message::Unsnooze, now);
    assert!(task.snooze_information.snooze_until.is_none());
    task.update(Message::TextInput("Done".to_string()));
    assert_eq!(task.description(), "Done");
    assert_eq!(task.id, 1);
}
