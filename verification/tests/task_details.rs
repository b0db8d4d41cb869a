use mydone::task_details::{
    body_input, calendar_due_date_input, calendar_reminder_date_input, due_date_input,
    importance_input, reminder_date_input,
    ContentComponentInput, Task, TaskDetailsEffect, TaskDetailsFactoryInit,
    TaskDetailsFactoryInput, TaskDetailsFactoryModel, TaskDetailsFactoryOutput,
};

fn task() -> Task {
    Task {
        id: "t1".to_string(),
        parent: "l1".to_string(),
        title: "Buy milk".to_string(),
        body: None,
        importance: 0,
        favorite: false,
        is_reminder_on: false,
        status: 0,
        completed_on: None,
        due_date: None,
        reminder_date: None,
        created_date_time: 10,
        last_modified_date_time: 20,
    }
}

fn model() -> TaskDetailsFactoryModel {
    TaskDetailsFactoryModel::init_model(TaskDetailsFactoryInit::new(task(), 3))
}

#[test]
fn init_without_dates_has_no_labels() {
    let m = model();
    assert_eq!(m.task, task());
    assert_eq!(m.index, 3);
    assert_eq!(m.selected_due_date, None);
    assert_eq!(m.selected_reminder_date, None);
    assert_eq!(m.due_date_label(), "No date set");
    assert_eq!(m.reminder_date_label(), "No date set");
}

#[test]
fn init_formats_dates() {
    let mut t = task();
    t.due_date = Some(0);
    t.reminder_date = Some(1_700_000_000);
    let m = TaskDetailsFactoryModel::init_model(TaskDetailsFactoryInit::new(t, 0));
    assert_eq!(m.selected_due_date.as_deref(), Some("01/01/1970"));
    assert_eq!(m.selected_reminder_date.as_deref(), Some("11/14/2023"));
    assert_eq!(m.due_date_label(), "01/01/1970");
}

#[test]
fn init_with_unrepresentable_date_has_no_label() {
    let mut t = task();
    t.due_date = Some(i64::MAX);
    let m = TaskDetailsFactoryModel::init_model(TaskDetailsFactoryInit::new(t, 0));
    assert_eq!(m.selected_due_date, None);
}

#[test]
fn set_title_body_importance_favorite() {
    let mut m = model();
    assert_eq!(m.update(TaskDetailsFactoryInput::SetTitle("Buy bread".to_string()), 3), None);
    assert_eq!(m.task.title, "Buy bread");
    m.update(TaskDetailsFactoryInput::SetBody(Some("whole grain".to_string())), 3);
    assert_eq!(m.task.body.as_deref(), Some("whole grain"));
    assert_eq!(m.body_text(), "whole grain");
    m.update(TaskDetailsFactoryInput::SetImportance(2), 3);
    assert_eq!(m.task.importance, 2);
    m.update(TaskDetailsFactoryInput::SetFavorite(true), 3);
    assert!(m.task.favorite);
    assert_eq!(m.task.id, "t1");
    assert_eq!(m.index, 3);
}

#[test]
fn set_status_drives_completed_switch() {
    let mut m = model();
    assert!(!m.completed());
    m.update(TaskDetailsFactoryInput::SetStatus(true), 3);
    assert_eq!(m.task.status, 1);
    assert!(m.completed());
    m.update(TaskDetailsFactoryInput::SetStatus(false), 3);
    assert_eq!(m.task.status, 0);
    assert!(!m.completed());
}

#[test]
fn set_due_date_labels_and_clear_keeps_label() {
    let mut m = model();
    m.update(TaskDetailsFactoryInput::SetDueDate(Some(1_709_596_800)), 3);
    assert_eq!(m.task.due_date, Some(1_709_596_800));
    assert_eq!(m.due_date_label(), "03/05/2024");
    m.update(TaskDetailsFactoryInput::SetDueDate(None), 3);
    assert_eq!(m.task.due_date, None);
    assert_eq!(m.due_date_label(), "03/05/2024");
}

#[test]
fn set_reminder_turns_reminder_on_and_off() {
    let mut m = model();
    m.update(TaskDetailsFactoryInput::SetReminderDate(Some(86_400)), 3);
    assert_eq!(m.task.reminder_date, Some(86_400));
    assert!(m.task.is_reminder_on);
    assert_eq!(m.reminder_date_label(), "01/02/1970");
    m.update(TaskDetailsFactoryInput::SetReminderDate(None), 3);
    assert_eq!(m.task.reminder_date, None);
    assert!(!m.task.is_reminder_on);
    assert_eq!(m.reminder_date_label(), "01/02/1970");
}

#[test]
fn save_emits_edited_task_and_reaches_content_view() {
    let mut m = model();
    m.update(TaskDetailsFactoryInput::SetTitle("Call mom".to_string()), 3);
    let effect = m.update(TaskDetailsFactoryInput::SaveTask, 3);
    let mut expected = task();
    expected.title = "Call mom".to_string();
    assert_eq!(
        effect,
        Some(TaskDetailsEffect::Emit(TaskDetailsFactoryOutput::SaveTask(3, expected.clone())))
    );
    assert_eq!(m.task, expected);
    assert_eq!(
        TaskDetailsFactoryModel::output_to_parent_input(TaskDetailsFactoryOutput::SaveTask(
            3, expected.clone()
        )),
        Some(ContentComponentInput::UpdateTask(Some(3), expected))
    );
}

#[test]
fn hide_flap_and_notify() {
    let mut m = model();
    assert_eq!(
        m.update(TaskDetailsFactoryInput::HideFlap, 3),
        Some(TaskDetailsEffect::Emit(TaskDetailsFactoryOutput::HideFlap))
    );
    assert_eq!(
        m.update(TaskDetailsFactoryInput::Notify("saved".to_string()), 3),
        Some(TaskDetailsEffect::ShowToast("saved".to_string(), 1))
    );
    assert_eq!(m.task, task());
    assert_eq!(
        TaskDetailsFactoryModel::output_to_parent_input(TaskDetailsFactoryOutput::HideFlap),
        Some(ContentComponentInput::HideFlap)
    );
}

#[test]
fn body_entry_input() {
    assert_eq!(body_input(String::new()), TaskDetailsFactoryInput::SetBody(None));
    assert_eq!(
        body_input("notes".to_string()),
        TaskDetailsFactoryInput::SetBody(Some("notes".to_string()))
    );
}

#[test]
fn body_entry_round_trip() {
    let mut m = model();
    assert_eq!(m.body_text(), "");
    let shown = m.body_text().to_string();
    assert_eq!(body_input(shown), TaskDetailsFactoryInput::SetBody(None));
    m.update(TaskDetailsFactoryInput::SetBody(Some("x".to_string())), 3);
    let shown = m.body_text().to_string();
    assert_eq!(body_input(shown), TaskDetailsFactoryInput::SetBody(m.task.body.clone()));
}

#[test]
fn importance_toggle_input() {
    assert_eq!(importance_input(1, true), Some(TaskDetailsFactoryInput::SetImportance(1)));
    assert_eq!(importance_input(2, false), None);
}

#[test]
fn calendar_inputs_read_dates() {
    assert_eq!(
        calendar_due_date_input("2024-03-05T00:00:00"),
        Some(TaskDetailsFactoryInput::SetDueDate(Some(1_709_596_800)))
    );
    assert_eq!(
        calendar_reminder_date_input("1970-01-02T00:00:00"),
        Some(TaskDetailsFactoryInput::SetReminderDate(Some(86_400)))
    );
    assert_eq!(calendar_due_date_input("not a date"), None);
    assert_eq!(calendar_reminder_date_input("2024-13-01T00:00:00"), None);
}

#[test]
fn task_clone_is_equal() {
    let mut t = task();
    t.body = Some("b".to_string());
    assert_eq!(t.clone(), t);
}

#[test]
fn apply_shows_given_label() {
    let mut m = model();
    let effect = m.apply(TaskDetailsFactoryInput::SetDueDate(Some(5)), 3, Some("label".to_string()));
    assert_eq!(effect, None);
    assert_eq!(m.task.due_date, Some(5));
    assert_eq!(m.due_date_label(), "label");
    m.apply(TaskDetailsFactoryInput::SetReminderDate(Some(7)), 3, None);
    assert_eq!(m.selected_reminder_date, None);
    assert!(m.task.is_reminder_on);
    m.apply(TaskDetailsFactoryInput::SetTitle("t".to_string()), 3, Some("ignored".to_string()));
    assert_eq!(m.due_date_label(), "label");
    assert_eq!(m.selected_reminder_date, None);
}

#[test]
fn with_labels_keeps_given_labels() {
    let m = TaskDetailsFactoryModel::with_labels(
        TaskDetailsFactoryInit::new(task(), 9),
        Some("a".to_string()),
        None,
    );
    assert_eq!(m.index, 9);
    assert_eq!(m.due_date_label(), "a");
    assert_eq!(m.reminder_date_label(), "No date set");
}

#[test]
fn date_inputs_from_read_dates() {
    assert_eq!(due_date_input(Some(3)), Some(TaskDetailsFactoryInput::SetDueDate(Some(3))));
    assert_eq!(due_date_input(None), None);
    assert_eq!(
        reminder_date_input(Some(4)),
        Some(TaskDetailsFactoryInput::SetReminderDate(Some(4)))
    );
    assert_eq!(reminder_date_input(None), None);
}

#[test]
fn save_uses_current_position() {
    let mut m = model();
    m.update(TaskDetailsFactoryInput::SetFavorite(true), 5);
    assert_eq!(m.index, 5);
    let effect = m.update(TaskDetailsFactoryInput::SaveTask, 1);
    assert_eq!(m.index, 1);
    let mut expected = task();
    expected.favorite = true;
    assert_eq!(
        effect,
        Some(TaskDetailsEffect::Emit(TaskDetailsFactoryOutput::SaveTask(1, expected)))
    );
}
