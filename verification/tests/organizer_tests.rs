use organizer::data::{Data, FileError, FileErrorKind, Filters};
use organizer::organizer::{Request, SummaryDates};
use organizer::periodic_task;
use organizer::task;
use organizer::time::{Duration, Time, TimeErrorKind};
use organizer::views::{list_view, periodic_tasks_management, summary_view};
use organizer::{Message, Organizer, ViewType};

fn no_file() -> Result<Data, FileError> {
    Err(FileError {
        message: "Invalid file".to_string(),
        kind: FileErrorKind::Load,
    })
}

fn new_organizer() -> Organizer {
    Organizer::new_at(None, no_file(), &Time::now())
}

fn now() -> Time {
    Time::from("Sat, 21 Jan 2023 12:00:00 +0100")
}

fn organizer_at_noon() -> Organizer {
    Organizer::new_at(Some("list.ogz".to_string()), no_file(), &now())
}

fn names(organizer: &Organizer) -> Vec<&str> {
    organizer.data.tasks.iter().map(|task| task.description()).collect()
}

#[test]
fn check_title() {
    let organizer = new_organizer();
    assert_eq!(organizer.title(), "Organizer");
}

#[test]
fn lib_add_task() {
    let mut organizer = new_organizer();
    assert_eq!(organizer.data.tasks.len(), 0);

    organizer.add_task();
    assert_eq!(organizer.data.tasks.len(), 1);

    organizer.add_task();
    organizer.add_task();
    organizer.add_task();
    assert_eq!(organizer.data.tasks.len(), 4);
}

#[test]
fn update_add_task() {
    let mut organizer = new_organizer();
    organizer.update(Message::List(list_view::Message::AddTask));
    assert_eq!(organizer.data.tasks.len(), 1);
}

#[test]
fn task_message() {
    let mut organizer = new_organizer();

    organizer.update(Message::List(list_view::Message::AddTask));
    organizer.update(Message::List(list_view::Message::AddTask));
    organizer.update(Message::List(list_view::Message::AddTask));
    assert_eq!(organizer.data.tasks.len(), 3);

    organizer.update(Message::List(list_view::Message::Task(
        0,
        task::Message::TextInput("A".to_string()),
    )));
    organizer.update(Message::List(list_view::Message::Task(
        1,
        task::Message::TextInput("B".to_string()),
    )));
    organizer.update(Message::List(list_view::Message::Task(
        2,
        task::Message::TextInput("C".to_string()),
    )));

    organizer.update(Message::List(list_view::Message::Task(
        1,
        task::Message::DeleteTask,
    )));
    assert_eq!(organizer.data.tasks.len(), 2);

    assert_eq!(organizer.data.tasks[0].description(), "A");
    assert_eq!(organizer.data.tasks[1].description(), "C");
}

#[test]
fn the_organizer_starts_on_the_list_view() {
    let organizer = organizer_at_noon();
    assert_eq!(organizer.view_type, Some(ViewType::List));
    assert!(organizer.error_text.is_none());
    assert_eq!(organizer.file_name.as_deref(), Some("list.ogz"));
    assert_eq!(organizer.data.tasks.len(), 0);
    assert_eq!(organizer.data.periodic_tasks.len(), 0);
    assert_eq!(
        organizer.data.filters,
        Filters { todo: true, complete: false, snoozed: false }
    );
    let dates = organizer.summary_dates;
    assert_eq!((dates.initial_day, dates.initial_month, dates.initial_year), (20, 1, 2023));
    assert_eq!((dates.final_day, dates.final_month, dates.final_year), (21, 1, 2023));
    assert_eq!(
        dates.initial_date.unwrap().to_string(),
        "Fri, 20 Jan 2023 12:00:00 +0100"
    );
    assert!(dates.final_date.unwrap() == now());
}

#[test]
fn the_organizer_starts_with_the_list_that_was_loaded() {
    let mut data = Data::new();
    data.add_task_at(now());
    data.filters.complete = true;
    let organizer = Organizer::new_at(None, Ok(data), &now());
    assert_eq!(organizer.data.tasks.len(), 1);
    assert!(organizer.data.filters.complete);
    assert!(organizer.file_name.is_none());
}

#[test]
fn view_names() {
    assert_eq!(ViewType::List.to_string(), "List");
    assert_eq!(ViewType::Summary.to_string(), "Summary");
    assert_eq!(
        ViewType::PeriodicTasksManagement.to_string(),
        "Periodic Tasks Management"
    );
    assert_eq!(
        ViewType::ALL,
        [ViewType::List, ViewType::Summary, ViewType::PeriodicTasksManagement]
    );
}

#[test]
fn every_view_can_choose_a_view() {
    let mut organizer = organizer_at_noon();
    let request = organizer.update_at(
        Message::List(list_view::Message::SelectView(ViewType::Summary)),
        &now(),
    );
    assert_eq!(request, Request::Save);
    assert_eq!(organizer.view_type, Some(ViewType::Summary));
    organizer.update_at(
        Message::Summary(summary_view::Message::SelectView(ViewType::PeriodicTasksManagement)),
        &now(),
    );
    assert_eq!(organizer.view_type, Some(ViewType::PeriodicTasksManagement));
    organizer.update_at(
        Message::PeriodicTasksManagement(periodic_tasks_management::Message::SelectView(
            ViewType::List,
        )),
        &now(),
    );
    assert_eq!(organizer.view_type, Some(ViewType::List));
}

#[test]
fn list_messages() {
    let now = now();
    let mut organizer = organizer_at_noon();
    for name in ["A", "B", "C"] {
        organizer.update_at(Message::List(list_view::Message::AddTask), &now);
        let last = organizer.data.tasks.len() - 1;
        organizer.update_at(
            Message::List(list_view::Message::Task(
                last,
                task::Message::TextInput(name.to_string()),
            )),
            &now,
        );
    }
    assert_eq!(names(&organizer), vec!["A", "B", "C"]);

    organizer.update_at(Message::List(list_view::Message::SwapWithNext(0)), &now);
    assert_eq!(names(&organizer), vec!["B", "A", "C"]);
    organizer.update_at(Message::List(list_view::Message::SwapWithPrevious(2)), &now);
    assert_eq!(names(&organizer), vec!["B", "C", "A"]);
    organizer.update_at(Message::List(list_view::Message::SwapWithNext(2)), &now);
    organizer.update_at(Message::List(list_view::Message::SwapWithPrevious(0)), &now);
    assert_eq!(names(&organizer), vec!["B", "C", "A"]);

    organizer.update_at(
        Message::List(list_view::Message::Task(1, task::Message::ToggleTaskCompletion(true))),
        &now,
    );
    assert!(organizer.data.tasks[1].completed());
    let tomorrow = &now + &Duration::from_hours(24);
    organizer.update_at(Message::List(list_view::Message::SwapWithNext(0)), &tomorrow);
    assert_eq!(names(&organizer), vec!["A", "C", "B"]);

    organizer.update_at(Message::List(list_view::Message::ToggleActiveFilter(false)), &now);
    organizer.update_at(Message::List(list_view::Message::ToggleCompleteFilter(true)), &now);
    assert_eq!(
        organizer.data.filters,
        Filters { todo: false, complete: true, snoozed: false }
    );
    assert_eq!(organizer.data.visible_positions_at(&now), vec![1]);

    let request = organizer.update_at(
        Message::List(list_view::Message::UpdateSaveFileName("other".to_string())),
        &now,
    );
    assert_eq!(request, Request::Save);
    assert_eq!(organizer.file_name.as_deref(), Some("other"));
    assert_eq!(
        organizer.update_at(Message::List(list_view::Message::Save), &now),
        Request::Save
    );
    assert_eq!(
        organizer.update_at(Message::List(list_view::Message::Load), &now),
        Request::Load
    );
    assert_eq!(names(&organizer), vec!["A", "C", "B"]);
}

#[test]
fn the_list_view_lets_the_rules_catch_up() {
    let now = now();
    let mut organizer = organizer_at_noon();
    organizer.update_at(
        Message::PeriodicTasksManagement(periodic_tasks_management::Message::Create),
        &(&now - &Duration::from_hours(49)),
    );
    for message in [
        periodic_task::Message::TextInput("Walk".to_string()),
        periodic_task::Message::UpdateFrequency("1".to_string()),
        periodic_task::Message::Daily,
    ] {
        organizer.update_at(
            Message::PeriodicTasksManagement(periodic_tasks_management::Message::PeriodicTask(
                0, message,
            )),
            &now,
        );
    }
    assert_eq!(organizer.data.tasks.len(), 0);
    let rule = &organizer.data.periodic_tasks[0];
    assert_eq!(rule.description, "Walk");
    assert_eq!(
        rule.initial_date.unwrap().to_string(),
        "Thu, 19 Jan 2023 00:00:00 +0000"
    );

    organizer.update_at(Message::List(list_view::Message::AddTask), &now);
    assert_eq!(
        names(&organizer),
        vec![
            "Walk - Fri, 20 Jan 2023 00:00:00 +0000",
            "Walk - Sat, 21 Jan 2023 00:00:00 +0000",
            "",
        ]
    );
    let ids: Vec<usize> = organizer.data.tasks.iter().map(|task| task.id).collect();
    assert_eq!(ids, vec![1, 1, 2]);

    organizer.update_at(
        Message::PeriodicTasksManagement(periodic_tasks_management::Message::PeriodicTask(
            0,
            periodic_task::Message::DeleteTask,
        )),
        &now,
    );
    assert_eq!(organizer.data.periodic_tasks.len(), 0);
    organizer.update_at(Message::List(list_view::Message::Save), &now);
    assert_eq!(organizer.data.tasks.len(), 3);
}

#[test]
fn summary_messages() {
    let now = now();
    let mut organizer = organizer_at_noon();
    organizer.update_at(Message::Summary(summary_view::Message::LastWeek), &now);
    let dates = organizer.summary_dates;
    assert_eq!((dates.initial_day, dates.initial_month, dates.initial_year), (14, 1, 2023));
    assert_eq!(
        dates.initial_date.unwrap().to_string(),
        "Sat, 14 Jan 2023 12:00:00 +0100"
    );
    organizer.update_at(Message::Summary(summary_view::Message::LastTwoWeeks), &now);
    assert_eq!(organizer.summary_dates.initial_day, 7);
    organizer.update_at(Message::Summary(summary_view::Message::LastDay), &now);
    assert_eq!(organizer.summary_dates.initial_day, 20);

    for message in [
        summary_view::Message::UpdateInitialDay("28".to_string()),
        summary_view::Message::UpdateInitialMonth("2".to_string()),
        summary_view::Message::UpdateInitialYear("2022".to_string()),
        summary_view::Message::UpdateFinalDay("29".to_string()),
        summary_view::Message::UpdateFinalMonth("2".to_string()),
        summary_view::Message::UpdateFinalYear("2024".to_string()),
    ] {
        organizer.update_at(Message::Summary(message), &now);
    }
    let dates = organizer.summary_dates;
    assert_eq!(
        dates.initial_date.unwrap().to_string(),
        "Mon, 28 Feb 2022 00:00:00 +0000"
    );
    assert_eq!(
        dates.final_date.unwrap().to_string(),
        "Thu, 29 Feb 2024 23:59:59 +0000"
    );
    organizer.update_at(
        Message::Summary(summary_view::Message::UpdateFinalYear("2023".to_string())),
        &now,
    );
    assert_eq!(
        organizer.summary_dates.final_date.unwrap_err().kind,
        TimeErrorKind::InvalidCalendarDate
    );
    organizer.update_at(
        Message::Summary(summary_view::Message::UpdateFinalDay("40".to_string())),
        &now,
    );
    assert_eq!(organizer.summary_dates.final_day, 29);
    organizer.update_at(
        Message::Summary(summary_view::Message::UpdateFinalDay(String::new())),
        &now,
    );
    assert_eq!(organizer.summary_dates.final_day, 0);
}

#[test]
fn the_summary_lists_what_was_completed_between_the_dates() {
    let now = now();
    let mut organizer = organizer_at_noon();
    for _ in 0..3 {
        organizer.update_at(Message::List(list_view::Message::AddTask), &now);
    }
    organizer.data.tasks[0].set_completed_at(true, &now - &Duration::from_hours(1));
    organizer.data.tasks[2].set_completed_at(true, &now - &Duration::from_hours(30));
    assert_eq!(organizer.summary(), vec![0]);
    organizer.update_at(Message::Summary(summary_view::Message::LastWeek), &now);
    assert_eq!(organizer.summary(), vec![0, 2]);
    organizer.update_at(
        Message::Summary(summary_view::Message::UpdateInitialDay("31".to_string())),
        &now,
    );
    organizer.update_at(
        Message::Summary(summary_view::Message::UpdateInitialMonth("2".to_string())),
        &now,
    );
    assert!(organizer.summary_dates.initial_date.is_err());
    assert_eq!(organizer.summary(), Vec::<usize>::new());
}

#[test]
fn summary_dates_between_two_times() {
    let first = Time::from("Sat, 31 Dec 2022 23:30:00 -0100");
    let last = Time::from("Sun, 1 Jan 2023 01:30:00 +0100");
    let dates = SummaryDates::new(&first, &last);
    assert_eq!((dates.initial_day, dates.initial_month, dates.initial_year), (31, 12, 2022));
    assert_eq!((dates.final_day, dates.final_month, dates.final_year), (1, 1, 2023));
    assert!(dates.initial_date.unwrap() == first);
    assert!(dates.final_date.unwrap() == last);
    let early = Time::from("Sat, 1 Jan 0000 05:00:00 +0000");
    let dates = SummaryDates::new_last_hours(24, &early);
    assert_eq!(
        dates.initial_date.unwrap().to_string(),
        "Sat, 1 Jan 0000 00:00:00 +0000"
    );
}

#[test]
fn a_failed_load_is_told_and_keeps_the_list() {
    let mut organizer = organizer_at_noon();
    organizer.add_task_at(now());
    organizer.loaded(Err(FileError {
        message: "Problem loading file".to_string(),
        kind: FileErrorKind::Load,
    }));
    assert_eq!(
        organizer.error_text.as_deref(),
        Some("Load problem: \"Problem loading file\"")
    );
    assert_eq!(organizer.data.tasks.len(), 1);
    organizer.loaded(Err(FileError {
        message: "a \"quoted\" word".to_string(),
        kind: FileErrorKind::Serialization,
    }));
    assert_eq!(
        organizer.error_text.as_deref(),
        Some("Serialization problem: \"a \\\"quoted\\\" word\"")
    );
    organizer.update_at(Message::List(list_view::Message::Save), &now());
    assert!(organizer.error_text.is_none());
}

#[test]
fn a_load_replaces_the_list() {
    let mut organizer = organizer_at_noon();
    organizer.add_task_at(now());
    let mut data = Data::new();
    data.filters.snoozed = true;
    organizer.loaded(Ok(data));
    assert_eq!(organizer.data.tasks.len(), 0);
    assert!(organizer.data.filters.snoozed);
    assert!(organizer.error_text.is_none());
    assert_eq!(organizer.file_name.as_deref(), Some("list.ogz"));
}

#[test]
fn a_failed_save_is_told() {
    let mut organizer = organizer_at_noon();
    organizer.saved(Ok(()));
    assert!(organizer.error_text.is_none());
    organizer.saved(Err(FileError {
        message: "Problem saving file.".to_string(),
        kind: FileErrorKind::Write,
    }));
    assert_eq!(
        organizer.error_text.as_deref(),
        Some("Warning: Unsaved modifications.")
    );
}

#[test]
fn file_error_kinds_have_names() {
    assert_eq!(FileErrorKind::Load.to_string(), "Load");
    assert_eq!(FileErrorKind::Serialization.to_string(), "Serialization");
    assert_eq!(FileErrorKind::Write.to_string(), "Write");
    let error = FileError { message: "m".to_string(), kind: FileErrorKind::Write };
    assert_eq!(error.problem(), "Write problem: \"m\"");
}

#[test]
fn an_error_of_the_reader_is_a_serialization_failure() {
    let rejected = serde_json::from_str::<serde_json::Value>("{\"tasks\":[{{").unwrap_err();
    let text = rejected.to_string();
    assert!(!text.is_empty());
    let error = FileError::from(rejected);
    assert_eq!(error.kind, FileErrorKind::Serialization);
    assert_eq!(error.message, text);
}

#[test]
fn list_files_end_in_their_extension() {
    assert_eq!(Data::add_extension_if_missing("data").unwrap(), "data.ogz");
    assert_eq!(Data::add_extension_if_missing("data.ogz").unwrap(), "data.ogz");
    assert_eq!(Data::add_extension_if_missing("./lists/data").unwrap(), "./lists/data.ogz");
    assert_eq!(Data::add_extension_if_missing("a.b.ogz").unwrap(), "a.b.ogz");
    assert_eq!(Data::add_extension_if_missing(".hidden").unwrap(), ".hidden.ogz");
    assert_eq!(Data::add_extension_if_missing("").unwrap(), ".ogz");
    for name in ["data.txt", "data.OGZ", "data.", "data.ogz.bak"] {
        let error = Data::add_extension_if_missing(name).unwrap_err();
        assert_eq!(error.kind, FileErrorKind::Write, "{name}");
        assert_eq!(error.message, "Wrong file extension. Expected '.ogz'");
    }
}
