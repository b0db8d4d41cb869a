//! The task details pane: edits one task and hands it back to the content
//! view when the user saves it.
use crate::dates::{
    date_label_format, format_timestamp, parse_timestamp, parsed_timestamp, timestamp_text,
};
use crate::text::copy_text;
use vstd::prelude::*;

verus! {

/// A task as the service stores it; dates are seconds since the Unix epoch.
#[derive(Debug, PartialEq, Eq)]
pub struct Task {
    pub id: String,
    pub parent: String,
    pub title: String,
    pub body: Option<String>,
    pub importance: i32,
    pub favorite: bool,
    pub is_reminder_on: bool,
    pub status: i32,
    pub completed_on: Option<i64>,
    pub due_date: Option<i64>,
    pub reminder_date: Option<i64>,
    pub created_date_time: i64,
    pub last_modified_date_time: i64,
}

impl Clone for Task {
    fn clone(&self) -> (c: Task)
        ensures
            c == *self,
    {
        Task {
            id: self.id.clone(),
            parent: self.parent.clone(),
            title: self.title.clone(),
            body: copy_text(&self.body),
            importance: self.importance,
            favorite: self.favorite,
            is_reminder_on: self.is_reminder_on,
            status: self.status,
            completed_on: self.completed_on,
            due_date: self.due_date,
            reminder_date: self.reminder_date,
            created_date_time: self.created_date_time,
            last_modified_date_time: self.last_modified_date_time,
        }
    }
}

/// What the content view is asked to do by the task details pane.
#[derive(Debug, PartialEq, Eq)]
pub enum ContentComponentInput {
    /// Store the given task, found at the given position of the content view.
    UpdateTask(Option<usize>, Task),
    /// Close the details pane.
    HideFlap,
}

/// The state of the task details pane.
#[derive(Debug)]
pub struct TaskDetailsFactoryModel {
    /// The task being edited.
    pub task: Task,
    /// The position of the pane among the content view's panes, as of the
    /// last input it handled (positions shift as the content view inserts
    /// and removes panes).
    pub index: usize,
    /// The label shown for the due date, if one was set.
    pub selected_due_date: Option<String>,
    /// The label shown for the reminder date, if one was set.
    pub selected_reminder_date: Option<String>,
}

/// What the task details pane is asked to do; dates are seconds since the
/// Unix epoch.
#[derive(Debug, PartialEq, Eq)]
pub enum TaskDetailsFactoryInput {
    SaveTask,
    SetTitle(String),
    SetBody(Option<String>),
    SetImportance(i32),
    SetFavorite(bool),
    SetStatus(bool),
    SetDueDate(Option<i64>),
    SetReminderDate(Option<i64>),
    HideFlap,
    Notify(String),
}

/// What the task details pane tells the content view.
#[derive(Debug, PartialEq, Eq)]
pub enum TaskDetailsFactoryOutput {
    SaveTask(usize, Task),
    HideFlap,
}

/// What the task details pane starts with: a task and its position.
#[derive(Debug)]
pub struct TaskDetailsFactoryInit {
    pub task: Task,
    pub index: usize,
}

/// Work that the application carries out after the pane handled an input.
#[derive(Debug, PartialEq, Eq)]
pub enum TaskDetailsEffect {
    /// Send this output to the content view.
    Emit(TaskDetailsFactoryOutput),
    /// Show this message in a toast for this many seconds.
    ShowToast(String, u32),
}

/// The task after the pane handled `message`.
pub open spec fn next_task(t: Task, message: TaskDetailsFactoryInput) -> Task {
    match message {
        TaskDetailsFactoryInput::SetTitle(title) => Task { title, ..t },
        TaskDetailsFactoryInput::SetBody(body) => Task { body, ..t },
        TaskDetailsFactoryInput::SetImportance(importance) => Task { importance, ..t },
        TaskDetailsFactoryInput::SetFavorite(favorite) => Task { favorite, ..t },
        TaskDetailsFactoryInput::SetStatus(done) => Task { status: if done { 1 } else { 0 }, ..t },
        TaskDetailsFactoryInput::SetDueDate(due_date) => Task { due_date, ..t },
        TaskDetailsFactoryInput::SetReminderDate(reminder_date) => Task {
            reminder_date,
            is_reminder_on: reminder_date is Some,
            ..t
        },
        _ => t,
    }
}

/// The work the application carries out after the pane, holding task `t`
/// at position `index`, handled `message`.
pub open spec fn task_details_effect(
    t: Task,
    index: usize,
    message: TaskDetailsFactoryInput,
) -> Option<TaskDetailsEffect> {
    match message {
        TaskDetailsFactoryInput::SaveTask => Some(
            TaskDetailsEffect::Emit(TaskDetailsFactoryOutput::SaveTask(index, t)),
        ),
        TaskDetailsFactoryInput::Notify(text) => Some(TaskDetailsEffect::ShowToast(text, 1)),
        TaskDetailsFactoryInput::HideFlap => Some(
            TaskDetailsEffect::Emit(TaskDetailsFactoryOutput::HideFlap),
        ),
        _ => None,
    }
}

/// The content view's input for an output of the pane.
pub open spec fn spec_parent_input(output: TaskDetailsFactoryOutput) -> ContentComponentInput {
    match output {
        TaskDetailsFactoryOutput::SaveTask(index, task) => ContentComponentInput::UpdateTask(
            Some(index),
            task,
        ),
        TaskDetailsFactoryOutput::HideFlap => ContentComponentInput::HideFlap,
    }
}

/// The label of an optional date: the rendering of the date when it is set,
/// and nothing otherwise.
pub open spec fn date_label(date: Option<i64>) -> Option<Seq<char>> {
    match date {
        Some(secs) => timestamp_text(secs, date_label_format()),
        None => None,
    }
}

/// The text shown in the body entry for an optional body.
pub open spec fn shown_body(body: Option<Seq<char>>) -> Seq<char> {
    match body {
        Some(text) => text,
        None => ""@,
    }
}

/// The text shown on a date button for an optional label.
pub open spec fn shown_date_label(label: Option<Seq<char>>) -> Seq<char> {
    match label {
        Some(text) => text,
        None => "No date set"@,
    }
}

/// The body that the body entry sends for its text: none when it is empty.
pub open spec fn entered_body(text: Seq<char>) -> Option<Seq<char>> {
    if text.len() == 0 {
        None
    } else {
        Some(text)
    }
}

/// The input the body entry sends when its text is applied: an empty text
/// clears the body.
pub fn body_input(text: String) -> (m: TaskDetailsFactoryInput)
    ensures
        m matches TaskDetailsFactoryInput::SetBody(body) && body.deep_view() == entered_body(text@),
        text@.len() != 0 ==> m == TaskDetailsFactoryInput::SetBody(Some(text)),
{
    if text.as_str().is_empty() {
        TaskDetailsFactoryInput::SetBody(None)
    } else {
        TaskDetailsFactoryInput::SetBody(Some(text))
    }
}

/// The input the importance toggle of level `level` (0 low, 1 medium,
/// 2 high) sends when it is toggled: only turning it on sets the importance.
pub fn importance_input(level: i32, active: bool) -> (m: Option<TaskDetailsFactoryInput>)
    ensures
        m == (if active {
            Some(TaskDetailsFactoryInput::SetImportance(level))
        } else {
            None::<TaskDetailsFactoryInput>
        }),
{
    if active {
        Some(TaskDetailsFactoryInput::SetImportance(level))
    } else {
        None
    }
}

/// The input the due date calendar sends for the day it shows as
/// `YYYY-MM-DDTHH:MM:SS`: nothing when the text cannot be read.
pub fn calendar_due_date_input(text: &str) -> (m: Option<TaskDetailsFactoryInput>)
    ensures
        m == (match parsed_timestamp(text@) {
            Some(secs) => Some(TaskDetailsFactoryInput::SetDueDate(Some(secs))),
            None => None::<TaskDetailsFactoryInput>,
        }),
{
    due_date_input(parse_timestamp(text))
}

/// The input that sets the due date read from the calendar: nothing when
/// no date could be read.
pub fn due_date_input(read: Option<i64>) -> (m: Option<TaskDetailsFactoryInput>)
    ensures
        m == (match read {
            Some(secs) => Some(TaskDetailsFactoryInput::SetDueDate(Some(secs))),
            None => None::<TaskDetailsFactoryInput>,
        }),
{
    match read {
        Some(secs) => Some(TaskDetailsFactoryInput::SetDueDate(Some(secs))),
        None => None,
    }
}

/// The input the reminder calendar sends for the day it shows as
/// `YYYY-MM-DDTHH:MM:SS`: nothing when the text cannot be read.
pub fn calendar_reminder_date_input(text: &str) -> (m: Option<TaskDetailsFactoryInput>)
    ensures
        m == (match parsed_timestamp(text@) {
            Some(secs) => Some(TaskDetailsFactoryInput::SetReminderDate(Some(secs))),
            None => None::<TaskDetailsFactoryInput>,
        }),
{
    reminder_date_input(parse_timestamp(text))
}

/// The input that sets the reminder date read from the calendar: nothing
/// when no date could be read.
pub fn reminder_date_input(read: Option<i64>) -> (m: Option<TaskDetailsFactoryInput>)
    ensures
        m == (match read {
            Some(secs) => Some(TaskDetailsFactoryInput::SetReminderDate(Some(secs))),
            None => None::<TaskDetailsFactoryInput>,
        }),
{
    match read {
        Some(secs) => Some(TaskDetailsFactoryInput::SetReminderDate(Some(secs))),
        None => None,
    }
}

/// The label shown for an optional date.
fn label_of(date: Option<i64>) -> (label: Option<String>)
    ensures
        label.deep_view() == date_label(date),
{
    match date {
        Some(secs) => format_timestamp(secs, "%m/%d/%Y"),
        None => None,
    }
}

impl TaskDetailsFactoryInit {
    /// Bundles a task with its position.
    pub fn new(task: Task, index: usize) -> (init: TaskDetailsFactoryInit)
        ensures
            init.task == task,
            init.index == index,
    {
        TaskDetailsFactoryInit { task, index }
    }
}

impl TaskDetailsFactoryModel {
    /// The pane's state when it opens: the task and its position, and the
    /// labels of its due date and reminder date.
    pub fn init_model(init: TaskDetailsFactoryInit) -> (m: TaskDetailsFactoryModel)
        ensures
            m.task == init.task,
            m.index == init.index,
            m.selected_due_date.deep_view() == date_label(init.task.due_date),
            m.selected_reminder_date.deep_view() == date_label(init.task.reminder_date),
    {
        let selected_due_date = label_of(init.task.due_date);
        let selected_reminder_date = label_of(init.task.reminder_date);
        TaskDetailsFactoryModel::with_labels(init, selected_due_date, selected_reminder_date)
    }

    /// The pane's state for a task and its position, showing the given date labels.
    pub fn with_labels(
        init: TaskDetailsFactoryInit,
        selected_due_date: Option<String>,
        selected_reminder_date: Option<String>,
    ) -> (m: TaskDetailsFactoryModel)
        ensures
            m.task == init.task,
            m.index == init.index,
            m.selected_due_date == selected_due_date,
            m.selected_reminder_date == selected_reminder_date,
    {
        TaskDetailsFactoryModel {
            task: init.task,
            index: init.index,
            selected_due_date,
            selected_reminder_date,
        }
    }

    /// Handles one input while the pane sits at `position`: edits the task,
    /// relabels a date that was set, and returns the work the application
    /// carries out next; a save hands over the pane's current position. A
    /// date that is cleared keeps its label.
    pub fn update(&mut self, message: TaskDetailsFactoryInput, position: usize) -> (effect:
        Option<TaskDetailsEffect>)
        ensures
            final(self).task == next_task(old(self).task, message),
            final(self).index == position,
            effect == task_details_effect(old(self).task, position, message),
            match message {
                TaskDetailsFactoryInput::SetDueDate(Some(secs)) =>
                    final(self).selected_due_date.deep_view() == date_label(Some(secs)),
                _ => final(self).selected_due_date == old(self).selected_due_date,
            },
            match message {
                TaskDetailsFactoryInput::SetReminderDate(Some(secs)) =>
                    final(self).selected_reminder_date.deep_view() == date_label(Some(secs)),
                _ => final(self).selected_reminder_date == old(self).selected_reminder_date,
            },
    {
        let label = match &message {
            TaskDetailsFactoryInput::SetDueDate(Some(secs)) => label_of(Some(*secs)),
            TaskDetailsFactoryInput::SetReminderDate(Some(secs)) => label_of(Some(*secs)),
            _ => None,
        };
        self.apply(message, position, label)
    }

    /// Handles one input while the pane sits at `position`, with `label` the
    /// rendering of the date that the input sets, if it sets one: edits the
    /// task, shows `label` for a date that was set, and returns the work the
    /// application carries out next; a save hands over the pane's current
    /// position. A date that is cleared keeps its label.
    pub fn apply(
        &mut self,
        message: TaskDetailsFactoryInput,
        position: usize,
        label: Option<String>,
    ) -> (effect: Option<TaskDetailsEffect>)
        ensures
            final(self).task == next_task(old(self).task, message),
            final(self).index == position,
            effect == task_details_effect(old(self).task, position, message),
            message matches TaskDetailsFactoryInput::SetBody(b) ==> final(self).task.body == b,
            message matches TaskDetailsFactoryInput::SetFavorite(f) ==> final(self).task.favorite == f,
            message matches TaskDetailsFactoryInput::SetDueDate(d) ==> {
                &&& final(self).task.due_date == d
                &&& final(self).task.reminder_date == old(self).task.reminder_date
                &&& final(self).task.is_reminder_on == old(self).task.is_reminder_on
            },
            if message matches TaskDetailsFactoryInput::SetDueDate(Some(_)) {
                final(self).selected_due_date == label
            } else {
                final(self).selected_due_date == old(self).selected_due_date
            },
            if message matches TaskDetailsFactoryInput::SetReminderDate(Some(_)) {
                final(self).selected_reminder_date == label
            } else {
                final(self).selected_reminder_date == old(self).selected_reminder_date
            },
    {
        self.index = position;
        match message {
            TaskDetailsFactoryInput::SaveTask => {
                let task = self.task.clone();
                Some(TaskDetailsEffect::Emit(TaskDetailsFactoryOutput::SaveTask(self.index, task)))
            },
            TaskDetailsFactoryInput::Notify(text) => Some(TaskDetailsEffect::ShowToast(text, 1)),
            TaskDetailsFactoryInput::SetTitle(title) => {
                self.task.title = title;
                None
            },
            TaskDetailsFactoryInput::SetBody(body) => {
                self.task.body = body;
                None
            },
            TaskDetailsFactoryInput::SetImportance(importance) => {
                self.task.importance = importance;
                None
            },
            TaskDetailsFactoryInput::SetFavorite(favorite) => {
                self.task.favorite = favorite;
                None
            },
            TaskDetailsFactoryInput::SetStatus(done) => {
                if done {
                    self.task.status = 1;
                } else {
                    self.task.status = 0;
                }
                None
            },
            TaskDetailsFactoryInput::SetDueDate(due_date) => {
                match due_date {
                    Some(secs) => {
                        self.selected_due_date = label;
                        self.task.due_date = Some(secs);
                    },
                    None => {
                        self.task.due_date = None;
                    },
                }
                None
            },
            TaskDetailsFactoryInput::SetReminderDate(reminder_date) => {
                match reminder_date {
                    Some(secs) => {
                        self.selected_reminder_date = label;
                        self.task.reminder_date = Some(secs);
                        self.task.is_reminder_on = true;
                    },
                    None => {
                        self.task.reminder_date = None;
                        self.task.is_reminder_on = false;
                    },
                }
                None
            },
            TaskDetailsFactoryInput::HideFlap => Some(
                TaskDetailsEffect::Emit(TaskDetailsFactoryOutput::HideFlap),
            ),
        }
    }

    /// Whether the "completed" switch is on: the task's status is 1.
    pub fn completed(&self) -> (on: bool)
        ensures
            on == (self.task.status == 1),
    {
        self.task.status == 1
    }

    /// The text shown in the body entry: the body, or nothing when there is none.
    pub fn body_text(&self) -> (text: &str)
        ensures
            text@ == shown_body(self.task.body.deep_view()),
    {
        match &self.task.body {
            Some(body) => body.as_str(),
            None => "",
        }
    }

    /// The text shown on the due date button.
    pub fn due_date_label(&self) -> (text: &str)
        ensures
            text@ == shown_date_label(self.selected_due_date.deep_view()),
    {
        match &self.selected_due_date {
            Some(label) => label.as_str(),
            None => "No date set",
        }
    }

    /// The text shown on the reminder button.
    pub fn reminder_date_label(&self) -> (text: &str)
        ensures
            text@ == shown_date_label(self.selected_reminder_date.deep_view()),
    {
        match &self.selected_reminder_date {
            Some(label) => label.as_str(),
            None => "No date set",
        }
    }

    /// The content view's input for an output of the pane; every output has one.
    pub fn output_to_parent_input(output: TaskDetailsFactoryOutput) -> (input: Option<
        ContentComponentInput,
    >)
        ensures
            input == Some(spec_parent_input(output)),
    {
        let input = match output {
            TaskDetailsFactoryOutput::SaveTask(index, task) => ContentComponentInput::UpdateTask(
                Some(index),
                task,
            ),
            TaskDetailsFactoryOutput::HideFlap => ContentComponentInput::HideFlap,
        };
        Some(input)
    }
}

/// A part of a task that one kind of edit sets.
pub enum TaskField {
    Title,
    Body,
    Importance,
    Favorite,
    Status,
    DueDate,
    /// The reminder date together with the reminder flag.
    Reminder,
}

/// Whether `b` agrees with `a` on every part other than `field`; the
/// identifier, parent, completion time and creation and modification
/// times always agree.
pub open spec fn unchanged_except(a: Task, b: Task, field: TaskField) -> bool {
    &&& b.id == a.id
    &&& b.parent == a.parent
    &&& b.completed_on == a.completed_on
    &&& b.created_date_time == a.created_date_time
    &&& b.last_modified_date_time == a.last_modified_date_time
    &&& !(field is Title) ==> b.title == a.title
    &&& !(field is Body) ==> b.body == a.body
    &&& !(field is Importance) ==> b.importance == a.importance
    &&& !(field is Favorite) ==> b.favorite == a.favorite
    &&& !(field is Status) ==> b.status == a.status
    &&& !(field is DueDate) ==> b.due_date == a.due_date
    &&& !(field is Reminder) ==> b.reminder_date == a.reminder_date && b.is_reminder_on
        == a.is_reminder_on
}

/// Setting the title stores exactly the given title and changes nothing else.
pub proof fn lemma_set_title_sets_only_title(t: Task, title: String)
    ensures
        next_task(t, TaskDetailsFactoryInput::SetTitle(title)).title == title,
        unchanged_except(t, next_task(t, TaskDetailsFactoryInput::SetTitle(title)), TaskField::Title),
{
}

/// Setting the body stores exactly the given body, clearing it when the
/// body is `None`, and changes nothing else.
pub proof fn lemma_set_body_sets_only_body(t: Task, body: Option<String>)
    ensures
        next_task(t, TaskDetailsFactoryInput::SetBody(body)).body == body,
        unchanged_except(t, next_task(t, TaskDetailsFactoryInput::SetBody(body)), TaskField::Body),
{
}

/// Setting the importance stores exactly the given level and changes nothing else.
pub proof fn lemma_set_importance_sets_only_importance(t: Task, importance: i32)
    ensures
        next_task(t, TaskDetailsFactoryInput::SetImportance(importance)).importance == importance,
        unchanged_except(
            t,
            next_task(t, TaskDetailsFactoryInput::SetImportance(importance)),
            TaskField::Importance,
        ),
{
}

/// Setting the favorite star stores exactly the given flag, so a starred
/// task can be un-starred, and changes nothing else.
pub proof fn lemma_set_favorite_sets_only_favorite(t: Task, favorite: bool)
    ensures
        next_task(t, TaskDetailsFactoryInput::SetFavorite(favorite)).favorite == favorite,
        unchanged_except(
            t,
            next_task(t, TaskDetailsFactoryInput::SetFavorite(favorite)),
            TaskField::Favorite,
        ),
{
}

/// Setting the completed state stores status 1 for done and 0 otherwise,
/// and changes nothing else.
pub proof fn lemma_set_status_sets_only_status(t: Task, done: bool)
    ensures
        next_task(t, TaskDetailsFactoryInput::SetStatus(done)).status == (if done {
            1i32
        } else {
            0i32
        }),
        unchanged_except(t, next_task(t, TaskDetailsFactoryInput::SetStatus(done)), TaskField::Status),
{
}

/// Setting or clearing the due date stores exactly that date and changes
/// nothing else: the reminder date and reminder flag stay as they were.
pub proof fn lemma_set_due_date_sets_only_due_date(t: Task, date: Option<i64>)
    ensures
        next_task(t, TaskDetailsFactoryInput::SetDueDate(date)).due_date == date,
        next_task(t, TaskDetailsFactoryInput::SetDueDate(date)).reminder_date == t.reminder_date,
        next_task(t, TaskDetailsFactoryInput::SetDueDate(date)).is_reminder_on == t.is_reminder_on,
        unchanged_except(t, next_task(t, TaskDetailsFactoryInput::SetDueDate(date)), TaskField::DueDate),
{
}

/// Setting or clearing the reminder date stores exactly that date, turns
/// the reminder on exactly when a date is set, and changes nothing else.
pub proof fn lemma_set_reminder_sets_only_reminder(t: Task, date: Option<i64>)
    ensures
        next_task(t, TaskDetailsFactoryInput::SetReminderDate(date)).reminder_date == date,
        next_task(t, TaskDetailsFactoryInput::SetReminderDate(date)).is_reminder_on == (date is Some),
        unchanged_except(
            t,
            next_task(t, TaskDetailsFactoryInput::SetReminderDate(date)),
            TaskField::Reminder,
        ),
{
}

/// Saving, closing the pane and showing a message leave the task as it is.
pub proof fn lemma_non_edits_keep_task(t: Task, message: TaskDetailsFactoryInput)
    requires
        message is SaveTask || message is HideFlap || message is Notify,
    ensures
        next_task(t, message) == t,
{
}

/// The "completed" switch shows what the last status edit set.
pub proof fn lemma_status_switch_follows_edit(t: Task, done: bool)
    ensures
        (next_task(t, TaskDetailsFactoryInput::SetStatus(done)).status == 1) == done,
{
}

/// Setting or clearing the reminder date turns the reminder on exactly when
/// a date is set, and stores that date.
pub proof fn lemma_reminder_flag_follows_date(t: Task, date: Option<i64>)
    ensures
        next_task(t, TaskDetailsFactoryInput::SetReminderDate(date)).is_reminder_on == (date is Some),
        next_task(t, TaskDetailsFactoryInput::SetReminderDate(date)).reminder_date == date,
{
}

/// Saving after an edit hands the content view the edited task, at the
/// pane's position, as a task to store.
pub proof fn lemma_saved_edit_reaches_content_view(
    t: Task,
    index: usize,
    edit: TaskDetailsFactoryInput,
)
    ensures
        task_details_effect(next_task(t, edit), index, TaskDetailsFactoryInput::SaveTask) == Some(
            TaskDetailsEffect::Emit(TaskDetailsFactoryOutput::SaveTask(index, next_task(t, edit))),
        ),
        spec_parent_input(TaskDetailsFactoryOutput::SaveTask(index, next_task(t, edit)))
            == ContentComponentInput::UpdateTask(Some(index), next_task(t, edit)),
{
}

/// Applying the text the body entry shows gives back the body, unless the
/// body is present but empty (it then comes back as no body).
pub proof fn lemma_body_entry_round_trip(body: Option<Seq<char>>)
    requires
        !(body matches Some(text) && text.len() == 0),
    ensures
        entered_body(shown_body(body)) == body,
{
    match body {
        Some(text) => {},
        None => {
            assert(""@.len() == 0) by {
                reveal_strlit("");
            }
        },
    }
}

/// Only a title edit changes the task's title, and no input changes the
/// task's identifier.
pub proof fn lemma_title_survives_other_edits(t: Task, edit: TaskDetailsFactoryInput)
    requires
        !(edit is SetTitle),
    ensures
        next_task(t, edit).title == t.title,
        next_task(t, edit).id == t.id,
{
}

} // verus!
