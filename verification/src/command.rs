//! What the user may ask for, and how a request is carried out step by step.
//!
//! A session decides; a shell around it acts. The session names the next
//! thing to do (look at the file, open the editor, let the user choose, save
//! the record), the shell does it and reports what came of it, until the
//! session names the outcome.

use vstd::prelude::*;
use vstd::string::StringExecFns;
use crate::time::{representable, Stamp};
use crate::entry::EntryView;
use crate::error::BragError;
use crate::record::{
    appended, contents, dated, listing, record_of, row_views, texts, undated_text, Brag,
    FileState,
};
use crate::text::{blank, trimmed};

verus! {

/// What the user asked for.
#[derive(Debug)]
pub enum Intent {
    /// Add an entry: with the given text, or with one written in the editor.
    Add { text: Option<String> },
    /// Show the entries, or the file as it is.
    View { raw: bool },
    /// Change the text of a chosen entry.
    Edit,
    /// Remove a chosen entry.
    Remove,
}

/// What was done to the record.
#[derive(Debug)]
pub enum Change {
    /// An entry was added.
    Added,
    /// An entry's text was replaced.
    Updated,
    /// An entry was removed.
    Removed,
}

/// How a request ended.
#[derive(Debug)]
pub enum Outcome {
    /// The record was changed in this way, and saved.
    Saved(Change),
    /// These lines show the record. Nothing changed.
    Listed(Vec<String>),
    /// The record holds no entry. Nothing changed.
    EmptyList,
    /// The editor handed back a blank text for a new entry. Nothing changed.
    NothingAdded,
    /// No entry was chosen for editing. Nothing changed.
    NothingEdited,
    /// No entry was chosen for removal. Nothing changed.
    NothingRemoved,
    /// The editor handed back a blank text for an entry. Nothing changed.
    NotUpdated,
    /// The request failed. Nothing changed.
    Failed(BragError),
}

/// What the shell is to do next.
#[derive(Debug)]
pub enum Action {
    /// Print the record's file as it is. This ends the session.
    ShowRaw,
    /// Look at the record's file and report what was found.
    Load,
    /// Open the editor on this text and report what it handed back.
    Compose { initial: String },
    /// Let the user choose one of these items and report the choice.
    Choose { prompt: String, items: Vec<String> },
    /// Replace the file's content by the session's record and report whether
    /// that was done.
    Save,
    /// The session has ended in this way.
    Finish(Outcome),
}

/// What the shell reports back.
#[derive(Debug)]
pub enum Event {
    /// What was found where the record is kept.
    Loaded(FileState),
    /// The text that the editor left behind.
    Edited(String),
    /// The editor could not be started, or ended in failure.
    EditorFailed(String),
    /// The index that the user chose, or none.
    Chosen(Option<usize>),
    /// The record is in the file.
    Saved,
    /// The record could not be written; carries what the file system said.
    SaveFailed(String),
}

/// Where a session stands.
#[derive(Debug)]
pub enum Phase {
    /// Waiting for the record, to carry out this intent on it.
    Loading(Intent),
    /// Waiting for the text of a new entry.
    Composing,
    /// Waiting for the choice of the entry to edit.
    ChoosingEdit,
    /// Waiting for the choice of the entry to remove.
    ChoosingRemoval,
    /// Waiting for the new text of the entry at this index.
    Revising(usize),
    /// Waiting for the record, changed in this way, to be saved.
    Saving(Change),
    /// Nothing more to do.
    Done,
}

impl Change {
    /// The line that tells the user of the change.
    pub open spec fn notice_text(self) -> Seq<char> {
        match self {
            Change::Added => "Brag entry added!"@,
            Change::Updated => "Entry updated."@,
            Change::Removed => "Entry removed."@,
        }
    }

    /// The line that tells the user of the change.
    pub fn notice(&self) -> (line: String)
        ensures
            line@ == self.notice_text(),
    {
        match self {
            Change::Added => "Brag entry added!".to_owned(),
            Change::Updated => "Entry updated.".to_owned(),
            Change::Removed => "Entry removed.".to_owned(),
        }
    }
}

impl Outcome {
    /// Whether the record was changed and saved.
    pub fn persisted(&self) -> (b: bool)
        ensures
            b == (self is Saved),
    {
        match self {
            Outcome::Saved(_) => true,
            _ => false,
        }
    }

    /// The lines that tell the user how the request ended.
    pub open spec fn report_text(self) -> Seq<Seq<char>> {
        match self {
            Outcome::Saved(change) => seq![change.notice_text()],
            Outcome::Listed(lines) => texts(lines@),
            Outcome::EmptyList => seq!["Your brag list is currently empty."@],
            Outcome::NothingAdded => seq!["No content provided!"@],
            Outcome::NothingEdited => seq!["No entry selected"@],
            Outcome::NothingRemoved => seq!["No entry removed."@],
            Outcome::NotUpdated => seq!["No content provided!"@],
            Outcome::Failed(error) => seq![error.message_text()],
        }
    }

    /// The lines that tell the user how the request ended: the listing, or
    /// one line that says what was done or why nothing was.
    pub fn report(&self) -> (lines: Vec<String>)
        ensures
            texts(lines@) == self.report_text(),
    {
        let mut lines: Vec<String> = Vec::new();
        match self {
            Outcome::Saved(change) => lines.push(change.notice()),
            Outcome::Listed(shown) => {
                let n: usize = shown.len();
                let mut i: usize = 0;
                while i < n
                    invariant
                        i <= n,
                        n == shown@.len(),
                        lines@.len() == i,
                        forall|k: int| 0 <= k < i ==> (#[trigger] lines@[k])@ == shown@[k]@,
                    decreases n - i,
                {
                    lines.push(shown[i].as_str().to_owned());
                    i = i + 1;
                }
            },
            Outcome::EmptyList => lines.push("Your brag list is currently empty.".to_owned()),
            Outcome::NothingAdded => lines.push("No content provided!".to_owned()),
            Outcome::NothingEdited => lines.push("No entry selected".to_owned()),
            Outcome::NothingRemoved => lines.push("No entry removed.".to_owned()),
            Outcome::NotUpdated => lines.push("No content provided!".to_owned()),
            Outcome::Failed(error) => lines.push(error.message()),
        }
        assert(texts(lines@) =~= self.report_text());
        lines
    }

    /// Whether the request failed, so that the process is to end in failure.
    /// A blank text or an absent choice is an ordinary ending, no failure.
    pub fn is_failure(&self) -> (b: bool)
        ensures
            b == (self is Failed),
    {
        match self {
            Outcome::Failed(_) => true,
            _ => false,
        }
    }
}

/// A session as contracts see it: the record it works on, where it stands,
/// and the time at which it began, which is the creation time of an entry
/// that it adds.
pub ghost struct SessionView {
    pub record: Seq<EntryView>,
    pub phase: Phase,
    pub now: int,
}

impl SessionView {
    /// The record and the phase fit together: a choice is awaited only among
    /// some entries, a new text only for an entry that is there, and the
    /// record is still to come while it is awaited.
    pub open spec fn coherent(self) -> bool {
        &&& representable(self.now)
        &&& match self.phase {
            Phase::Loading(intent) => self.record.len() == 0 && !(intent matches Intent::View {
                raw: true,
            }),
            Phase::ChoosingEdit => self.record.len() > 0,
            Phase::ChoosingRemoval => self.record.len() > 0,
            Phase::Revising(index) => index < self.record.len(),
            _ => true,
        }
    }

    /// How many steps the session can still take, at most.
    pub open spec fn steps_left(self) -> nat {
        match self.phase {
            Phase::Loading(_) => 4,
            Phase::ChoosingEdit => 3,
            Phase::ChoosingRemoval => 3,
            Phase::Revising(_) => 2,
            Phase::Composing => 2,
            Phase::Saving(_) => 1,
            Phase::Done => 0,
        }
    }

    /// The session has ended, with this record.
    pub open spec fn ended_with(self, record: Seq<EntryView>) -> bool {
        self.phase is Done && self.record == record
    }
}

/// Whether `event` is what a session in this state waits for.
pub open spec fn expects(pre: SessionView, event: Event) -> bool {
    match pre.phase {
        Phase::Loading(_) => event is Loaded,
        Phase::Composing => event is Edited || event is EditorFailed,
        Phase::Revising(_) => event is Edited || event is EditorFailed,
        Phase::ChoosingEdit => event matches Event::Chosen(pick) && (pick matches Some(i) ==> i
            < pre.record.len()),
        Phase::ChoosingRemoval => event matches Event::Chosen(pick) && (pick matches Some(i) ==> i
            < pre.record.len()),
        Phase::Saving(_) => event is Saved || event is SaveFailed,
        Phase::Done => false,
    }
}

/// The session ends by telling that the editor failed, with the record as it was.
pub open spec fn editor_failed(
    pre: SessionView,
    why: String,
    post: SessionView,
    action: Action,
) -> bool {
    &&& post.ended_with(pre.record)
    &&& action matches Action::Finish(Outcome::Failed(BragError::EditorLaunch(m))) && m@ == why@
}

/// The user is asked to choose among the entries of `loaded`, or told that
/// there are none.
pub open spec fn asks_choice(
    loaded: Seq<EntryView>,
    removal: bool,
    post: SessionView,
    action: Action,
) -> bool {
    &&& post.record == loaded
    &&& if loaded.len() == 0 {
        post.phase is Done && action == Action::Finish(Outcome::EmptyList)
    } else {
        &&& if removal {
            post.phase is ChoosingRemoval
        } else {
            post.phase is ChoosingEdit
        }
        &&& action matches Action::Choose { prompt, items } && texts(items@) == contents(loaded)
            && prompt@ == (if removal {
            "Select entry to remove"@
        } else {
            "Select entry to edit"@
        })
    }
}

/// What carrying out `intent` on the record `loaded` begins with, in a
/// session that began at the time `now`.
pub open spec fn opened(
    intent: Intent,
    loaded: Seq<EntryView>,
    now: int,
    post: SessionView,
    action: Action,
) -> bool {
    match intent {
        Intent::Add { text: Some(text) } => {
            &&& post.phase == Phase::Saving(Change::Added)
            &&& appended(loaded, text@, now, post.record)
            &&& action is Save
        },
        Intent::Add { text: None } => {
            &&& post.phase is Composing
            &&& post.record == loaded
            &&& action matches Action::Compose { initial } && initial@.len() == 0
        },
        Intent::View { .. } => {
            &&& post.ended_with(loaded)
            &&& if loaded.len() == 0 {
                action == Action::Finish(Outcome::EmptyList)
            } else {
                action matches Action::Finish(Outcome::Listed(lines)) && texts(lines@) == listing(
                    loaded,
                )
            }
        },
        Intent::Edit => asks_choice(loaded, false, post, action),
        Intent::Remove => asks_choice(loaded, true, post, action),
    }
}

/// What follows when the record's file has been looked at.
pub open spec fn loaded(
    intent: Intent,
    file: FileState,
    now: int,
    post: SessionView,
    action: Action,
) -> bool {
    match file {
        FileState::Missing => opened(intent, Seq::<EntryView>::empty(), now, post, action),
        FileState::Holds(rows) => if dated(row_views(rows@)) {
            opened(intent, record_of(row_views(rows@)), now, post, action)
        } else {
            &&& post.ended_with(Seq::<EntryView>::empty())
            &&& action matches Action::Finish(Outcome::Failed(BragError::Parse(m))) && m@
                == undated_text()
        },
        FileState::Malformed(why) => {
            &&& post.ended_with(Seq::<EntryView>::empty())
            &&& action matches Action::Finish(Outcome::Failed(BragError::Parse(m))) && m@ == why@
        },
        FileState::Unreadable(why) => {
            &&& post.ended_with(Seq::<EntryView>::empty())
            &&& action matches Action::Finish(Outcome::Failed(BragError::Io(m))) && m@ == why@
        },
    }
}

/// What follows when the editor has handed back the text of a new entry.
pub open spec fn composed(
    pre: SessionView,
    edited: Seq<char>,
    post: SessionView,
    action: Action,
) -> bool {
    if blank(edited) {
        post.ended_with(pre.record) && action == Action::Finish(Outcome::NothingAdded)
    } else {
        &&& post.phase == Phase::Saving(Change::Added)
        &&& appended(pre.record, trimmed(edited), pre.now, post.record)
        &&& action is Save
    }
}

/// What follows when the editor has handed back the new text of the entry at `index`.
pub open spec fn revised(
    pre: SessionView,
    index: int,
    edited: Seq<char>,
    post: SessionView,
    action: Action,
) -> bool {
    if blank(edited) {
        post.ended_with(pre.record) && action == Action::Finish(Outcome::NotUpdated)
    } else {
        &&& post.phase == Phase::Saving(Change::Updated)
        &&& post.record == pre.record.update(
            index,
            pre.record[index].with_content(trimmed(edited)),
        )
        &&& action is Save
    }
}

/// What follows when the user has chosen, or has not.
pub open spec fn chosen(
    pre: SessionView,
    removal: bool,
    pick: Option<usize>,
    post: SessionView,
    action: Action,
) -> bool {
    match pick {
        None => post.ended_with(pre.record) && action == Action::Finish(
            if removal {
                Outcome::NothingRemoved
            } else {
                Outcome::NothingEdited
            },
        ),
        Some(index) => if removal {
            &&& post.phase == Phase::Saving(Change::Removed)
            &&& post.record == pre.record.remove(index as int)
            &&& action is Save
        } else {
            &&& post.phase == Phase::Revising(index)
            &&& post.record == pre.record
            &&& action matches Action::Compose { initial } && initial@
                == pre.record[index as int].content
        },
    }
}

/// What follows when the shell has saved the record, or has failed to.
pub open spec fn saved(
    pre: SessionView,
    change: Change,
    failure: Option<String>,
    post: SessionView,
    action: Action,
) -> bool {
    &&& post.ended_with(pre.record)
    &&& match failure {
        None => action == Action::Finish(Outcome::Saved(change)),
        Some(why) => action matches Action::Finish(Outcome::Failed(BragError::Io(m))) && m@
            == write_failure_text(why@),
    }
}

/// What is said of a record that could not be written, for the reason `why`.
pub open spec fn write_failure_text(why: Seq<char>) -> Seq<char> {
    "Failed to write .brag_list.json: "@ + why
}

/// One step of a session: from the state `pre` and the reported `event` to
/// the state `post` and the next `action`.
pub open spec fn stepped(
    pre: SessionView,
    event: Event,
    post: SessionView,
    action: Action,
) -> bool {
    &&& post.now == pre.now
    &&& match (pre.phase, event) {
        (Phase::Loading(intent), Event::Loaded(file)) => loaded(
            intent,
            file,
            pre.now,
            post,
            action,
        ),
        (Phase::Composing, Event::Edited(text)) => composed(pre, text@, post, action),
        (Phase::Composing, Event::EditorFailed(why)) => editor_failed(pre, why, post, action),
        (Phase::Revising(index), Event::Edited(text)) => revised(
            pre,
            index as int,
            text@,
            post,
            action,
        ),
        (Phase::Revising(_), Event::EditorFailed(why)) => editor_failed(pre, why, post, action),
        (Phase::ChoosingEdit, Event::Chosen(pick)) => chosen(pre, false, pick, post, action),
        (Phase::ChoosingRemoval, Event::Chosen(pick)) => chosen(pre, true, pick, post, action),
        (Phase::Saving(change), Event::Saved) => saved(pre, change, None, post, action),
        (Phase::Saving(change), Event::SaveFailed(why)) => saved(
            pre,
            change,
            Some(why),
            post,
            action,
        ),
        _ => false,
    }
}

/// A request on its way: the record it works on and where the work stands.
#[derive(Debug)]
pub struct Session {
    record: Brag,
    phase: Phase,
    now: Stamp,
}

impl View for Session {
    type V = SessionView;

    closed spec fn view(&self) -> SessionView {
        SessionView { record: self.record@, phase: self.phase, now: self.now@ }
    }
}

impl Session {
    #[verifier::type_invariant]
    spec fn inv(self) -> bool {
        self@.coherent()
    }

    /// Starts on what the user asked for, at the time `now`. The file is
    /// shown as it is without the record being read; everything else begins
    /// with reading it.
    pub fn begin(intent: Intent, now: Stamp) -> (first: (Session, Action))
        ensures
            first.0@.coherent(),
            first.0@.record.len() == 0,
            first.0@.now == now@,
            if intent matches (Intent::View { raw: true }) {
                first.0@.phase is Done && first.1 is ShowRaw
            } else {
                first.0@.phase == Phase::Loading(intent) && first.1 is Load
            },
    {
        proof {
            use_type_invariant(&now);
        }
        match intent {
            Intent::View { raw: true } => (
                Session { record: Brag::new(), phase: Phase::Done, now },
                Action::ShowRaw,
            ),
            other => (
                Session { record: Brag::new(), phase: Phase::Loading(other), now },
                Action::Load,
            ),
        }
    }

    /// Whether `event` is what the session waits for.
    pub fn awaits(&self, event: &Event) -> (b: bool)
        ensures
            b == expects(self@, *event),
    {
        match &self.phase {
            Phase::Loading(_) => match event {
                Event::Loaded(_) => true,
                _ => false,
            },
            Phase::Composing => match event {
                Event::Edited(_) => true,
                Event::EditorFailed(_) => true,
                _ => false,
            },
            Phase::Revising(_) => match event {
                Event::Edited(_) => true,
                Event::EditorFailed(_) => true,
                _ => false,
            },
            Phase::ChoosingEdit => match event {
                Event::Chosen(Some(index)) => *index < self.record.len(),
                Event::Chosen(None) => true,
                _ => false,
            },
            Phase::ChoosingRemoval => match event {
                Event::Chosen(Some(index)) => *index < self.record.len(),
                Event::Chosen(None) => true,
                _ => false,
            },
            Phase::Saving(_) => match event {
                Event::Saved => true,
                Event::SaveFailed(_) => true,
                _ => false,
            },
            Phase::Done => false,
        }
    }

    /// Whether the session has ended.
    pub fn is_done(&self) -> (b: bool)
        ensures
            b == (self@.phase is Done),
    {
        match &self.phase {
            Phase::Done => true,
            _ => false,
        }
    }

    /// The record as the session has it.
    pub fn record(&self) -> (r: &Brag)
        ensures
            r@ == self@.record,
            self@.coherent(),
    {
        proof {
            use_type_invariant(self);
        }
        &self.record
    }

    /// Gives the record up, as the session has it.
    pub fn into_record(self) -> (r: Brag)
        ensures
            r@ == self@.record,
    {
        self.record
    }

    /// Carries out `intent` on the record that was read, in a session that
    /// began at the time `now`.
    fn open(record: Brag, intent: Intent, now: Stamp) -> (next: (Session, Action))
        ensures
            next.0@.coherent(),
            next.0@.now == now@,
            opened(intent, record@, now@, next.0@, next.1),
    {
        let mut record = record;
        proof {
            use_type_invariant(&now);
        }
        match intent {
            Intent::Add { text: Some(text) } => {
                record.add(text.as_str(), now);
                (Session { record, phase: Phase::Saving(Change::Added), now }, Action::Save)
            },
            Intent::Add { text: None } => (
                Session { record, phase: Phase::Composing, now },
                Action::Compose { initial: String::new() },
            ),
            Intent::View { .. } => {
                let action = if record.is_empty() {
                    Action::Finish(Outcome::EmptyList)
                } else {
                    Action::Finish(Outcome::Listed(record.view_lines()))
                };
                (Session { record, phase: Phase::Done, now }, action)
            },
            Intent::Edit => match record.choices() {
                Ok(items) => (
                    Session { record, phase: Phase::ChoosingEdit, now },
                    Action::Choose { prompt: "Select entry to edit".to_owned(), items },
                ),
                Err(_) => (
                    Session { record, phase: Phase::Done, now },
                    Action::Finish(Outcome::EmptyList),
                ),
            },
            Intent::Remove => match record.choices() {
                Ok(items) => (
                    Session { record, phase: Phase::ChoosingRemoval, now },
                    Action::Choose { prompt: "Select entry to remove".to_owned(), items },
                ),
                Err(_) => (
                    Session { record, phase: Phase::Done, now },
                    Action::Finish(Outcome::EmptyList),
                ),
            },
        }
    }

    /// Takes what the shell reports and says what is to be done next. The
    /// record changes at most once in a session, in the step that asks for
    /// it to be saved.
    pub fn step(self, event: Event) -> (next: (Session, Action))
        requires
            expects(self@, event),
        ensures
            next.0@.coherent(),
            stepped(self@, event, next.0@, next.1),
    {
        proof {
            use_type_invariant(&self);
        }
        let Session { record, phase, now } = self;
        let mut record = record;
        match (phase, event) {
            (Phase::Loading(intent), Event::Loaded(file)) => match Brag::read(file) {
                Ok(found) => Session::open(found, intent, now),
                Err(e) => (
                    Session { record: Brag::new(), phase: Phase::Done, now },
                    Action::Finish(Outcome::Failed(e)),
                ),
            },
            (Phase::Composing, Event::Edited(text)) => match record.add_edited(text.as_str(), now) {
                Ok(()) => (
                    Session { record, phase: Phase::Saving(Change::Added), now },
                    Action::Save,
                ),
                Err(_) => (
                    Session { record, phase: Phase::Done, now },
                    Action::Finish(Outcome::NothingAdded),
                ),
            },
            (Phase::Revising(index), Event::Edited(text)) => match record.edit(
                index,
                text.as_str(),
            ) {
                Ok(()) => (
                    Session { record, phase: Phase::Saving(Change::Updated), now },
                    Action::Save,
                ),
                Err(_) => (
                    Session { record, phase: Phase::Done, now },
                    Action::Finish(Outcome::NotUpdated),
                ),
            },
            (Phase::Composing, Event::EditorFailed(why)) => (
                Session { record, phase: Phase::Done, now },
                Action::Finish(Outcome::Failed(BragError::EditorLaunch(why))),
            ),
            (Phase::Revising(_), Event::EditorFailed(why)) => (
                Session { record, phase: Phase::Done, now },
                Action::Finish(Outcome::Failed(BragError::EditorLaunch(why))),
            ),
            (Phase::ChoosingEdit, Event::Chosen(Some(index))) => {
                let initial = match record.get(index) {
                    Some(entry) => entry.content().to_owned(),
                    None => String::new(),
                };
                (
                    Session { record, phase: Phase::Revising(index), now },
                    Action::Compose { initial },
                )
            },
            (Phase::ChoosingEdit, Event::Chosen(None)) => (
                Session { record, phase: Phase::Done, now },
                Action::Finish(Outcome::NothingEdited),
            ),
            (Phase::ChoosingRemoval, Event::Chosen(Some(index))) => {
                let _ = record.remove(index);
                (Session { record, phase: Phase::Saving(Change::Removed), now }, Action::Save)
            },
            (Phase::ChoosingRemoval, Event::Chosen(None)) => (
                Session { record, phase: Phase::Done, now },
                Action::Finish(Outcome::NothingRemoved),
            ),
            (Phase::Saving(change), Event::Saved) => (
                Session { record, phase: Phase::Done, now },
                Action::Finish(Outcome::Saved(change)),
            ),
            (Phase::Saving(_), Event::SaveFailed(why)) => {
                let mut said = "Failed to write .brag_list.json: ".to_owned();
                said.append(why.as_str());
                (
                    Session { record, phase: Phase::Done, now },
                    Action::Finish(Outcome::Failed(BragError::Io(said))),
                )
            },
            _ => vstd::pervasive::unreached(),
        }
    }
}

} // verus!
