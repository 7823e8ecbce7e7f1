//! What holds of the brag list whatever its entries are.

use vstd::prelude::*;
use crate::time::representable;
use crate::command::{
    chosen, composed, expects, loaded, opened, revised, stepped, Action, Event, Intent, Outcome,
    Phase, SessionView,
};
use crate::entry::EntryView;
use crate::error::BragError;
use crate::record::{
    dated, listing, record_of, row_views, rows_of, valid_record, FileState,
};
use crate::text::{blank, is_core, trim_end, trim_start, trimmed, white_marks, white_space};

verus! {

/// The lines that an action has the shell print: those of its outcome where
/// it ends the session, none otherwise.
pub open spec fn printed(action: Action) -> Seq<Seq<char>> {
    match action {
        Action::Finish(outcome) => outcome.report_text(),
        _ => Seq::empty(),
    }
}

/// The record that a file holds: none where the file is missing or does
/// not hold a record.
pub open spec fn held(file: FileState) -> Seq<EntryView> {
    match file {
        FileState::Holds(rows) => if dated(row_views(rows@)) {
            record_of(row_views(rows@))
        } else {
            Seq::empty()
        },
        _ => Seq::empty(),
    }
}

/// A record that is taken apart into texts and creation times, as it is to
/// be written down, and put together again from them, as it is when read
/// back, is the record it was: the same entries in the same order, each
/// with its text and its creation time.
pub proof fn rows_round_trip(record: Seq<EntryView>)
    requires
        valid_record(record),
    ensures
        dated(rows_of(record)),
        record_of(rows_of(record)) == record,
        rows_of(record).len() == record.len(),
{
    assert forall|i: int| 0 <= i < rows_of(record).len() implies representable(
        (#[trigger] rows_of(record)[i]).1,
    ) by {
        assert(record[i].valid());
    }
    assert(record_of(rows_of(record)) =~= record);
}

/// Trimmed text neither begins nor ends with white space.
pub proof fn trimmed_has_no_white_edges(s: Seq<char>)
    ensures
        trimmed(s).len() > 0 ==> !white_space(trimmed(s).first()) && !white_space(
            trimmed(s).last(),
        ),
{
    trim_start_begins_black(s);
    trim_end_ends_black(trim_start(s));
    trim_end_keeps_first(trim_start(s));
}

/// Trimming what is trimmed changes nothing.
pub proof fn trimming_is_idempotent(s: Seq<char>)
    ensures
        trimmed(trimmed(s)) == trimmed(s),
{
    trimmed_has_no_white_edges(s);
}

/// Trimmed text is one piece of the text: it begins at the first character
/// that is no white space and ends behind the last one. The two ends of the
/// piece are handed back.
pub proof fn trimmed_is_the_core(s: Seq<char>) -> (ends: (int, int))
    ensures
        is_core(white_marks(s), ends),
        trimmed(s) == s.subrange(ends.0, ends.1),
{
    let from = trim_start_cuts_white(s);
    let rest = s.subrange(from, s.len() as int);
    let upto = trim_end_cuts_white(rest);
    let marks = white_marks(s);
    assert(rest.subrange(0, upto) =~= s.subrange(from, from + upto));
    assert forall|i: int| from + upto <= i < s.len() implies marks[i] by {
        assert(s[i] == rest[i - from]);
    }
    trim_start_begins_black(s);
    trim_end_ends_black(rest);
    if upto > 0 {
        assert(rest.first() == s[from]);
        assert(rest.subrange(0, upto).last() == s[from + upto - 1]);
    } else if rest.len() > 0 {
        assert(white_space(rest[0]));
    }
    (from, from + upto)
}

/// `trim_start` cuts off a beginning that is all white space, and hands
/// back its length.
proof fn trim_start_cuts_white(s: Seq<char>) -> (from: int)
    ensures
        0 <= from <= s.len(),
        trim_start(s) == s.subrange(from, s.len() as int),
        forall|i: int| 0 <= i < from ==> white_space(s[i]),
    decreases s.len(),
{
    if s.len() > 0 && white_space(s.first()) {
        let rest = s.drop_first();
        let inner = trim_start_cuts_white(rest);
        assert(rest.subrange(inner, rest.len() as int) =~= s.subrange(inner + 1, s.len() as int));
        assert forall|i: int| 0 <= i < inner + 1 implies white_space(s[i]) by {
            if i > 0 {
                assert(s[i] == rest[i - 1]);
            }
        }
        inner + 1
    } else {
        assert(s.subrange(0, s.len() as int) =~= s);
        0
    }
}

/// `trim_end` cuts off an end that is all white space, and hands back the
/// length of what stays.
proof fn trim_end_cuts_white(s: Seq<char>) -> (upto: int)
    ensures
        0 <= upto <= s.len(),
        trim_end(s) == s.subrange(0, upto),
        forall|i: int| upto <= i < s.len() ==> white_space(s[i]),
    decreases s.len(),
{
    if s.len() > 0 && white_space(s.last()) {
        let rest = s.drop_last();
        let inner = trim_end_cuts_white(rest);
        assert(rest.subrange(0, inner) =~= s.subrange(0, inner));
        assert forall|i: int| inner <= i < s.len() implies white_space(s[i]) by {
            if i < s.len() - 1 {
                assert(s[i] == rest[i]);
            }
        }
        inner
    } else {
        assert(s.subrange(0, s.len() as int) =~= s);
        s.len() as int
    }
}

/// What `trim_start` leaves does not begin with white space.
proof fn trim_start_begins_black(s: Seq<char>)
    ensures
        trim_start(s).len() > 0 ==> !white_space(trim_start(s).first()),
    decreases s.len(),
{
    if s.len() > 0 && white_space(s.first()) {
        trim_start_begins_black(s.drop_first());
    }
}

/// What `trim_end` leaves does not end with white space.
proof fn trim_end_ends_black(s: Seq<char>)
    ensures
        trim_end(s).len() > 0 ==> !white_space(trim_end(s).last()),
    decreases s.len(),
{
    if s.len() > 0 && white_space(s.last()) {
        trim_end_ends_black(s.drop_last());
    }
}

/// `trim_end` leaves the beginning as it is.
proof fn trim_end_keeps_first(s: Seq<char>)
    ensures
        trim_end(s).len() > 0 ==> trim_end(s).first() == s.first(),
    decreases s.len(),
{
    if s.len() > 0 && white_space(s.last()) {
        trim_end_keeps_first(s.drop_last());
    }
}

/// Showing the record twice, with no change in between, prints the same
/// lines both times: showing leaves the record as it was and has nothing
/// saved, and what is printed depends on the record alone.
pub proof fn viewing_twice_prints_the_same(
    record: Seq<EntryView>,
    now: int,
    later: int,
    first: SessionView,
    first_action: Action,
    second: SessionView,
    second_action: Action,
)
    requires
        opened(Intent::View { raw: false }, record, now, first, first_action),
        opened(Intent::View { raw: false }, first.record, later, second, second_action),
    ensures
        first.record == record,
        second.record == record,
        first.phase is Done && second.phase is Done,
        first_action is Finish && second_action is Finish,
        printed(first_action) == printed(second_action),
        record.len() > 0 ==> printed(first_action) == listing(record),
{
}

/// Adding a given text makes the record longer by exactly one entry, the
/// last; that entry holds the text exactly as given, white space included,
/// and its creation time is the time at which the session began; every
/// entry that was there stays as and where it was; and the record is to be
/// saved.
pub proof fn adding_text_appends_one(
    record: Seq<EntryView>,
    text: String,
    now: int,
    post: SessionView,
    action: Action,
)
    requires
        opened(Intent::Add { text: Some(text) }, record, now, post, action),
    ensures
        post.record.len() == record.len() + 1,
        post.record.last().content == text@,
        post.record.last().timestamp == now,
        representable(now) ==> post.record.last().valid(),
        forall|i: int| 0 <= i < record.len() ==> post.record[i] == record[i],
        action is Save,
{
}

/// A new entry written in the editor: where the text that comes back is
/// blank the record stays as it was and nothing is saved; otherwise exactly
/// one entry is added, which holds the text without its surrounding white
/// space and was made when the session began, and the record is to be
/// saved.
pub proof fn composing_adds_one_or_nothing(
    pre: SessionView,
    edited: Seq<char>,
    post: SessionView,
    action: Action,
)
    requires
        composed(pre, edited, post, action),
    ensures
        blank(edited) ==> post.record == pre.record && post.phase is Done && !(action is Save),
        !blank(edited) ==> post.record.len() == pre.record.len() + 1 && post.record.last().content
            == trimmed(edited) && post.record.last().content.len() > 0
            && post.record.last().timestamp == pre.now && action is Save,
        forall|i: int| 0 <= i < pre.record.len() ==> post.record[i] == pre.record[i],
{
}

/// Editing the entry at `index` changes that entry's text and nothing else:
/// the number of entries, every other entry and the entry's own creation
/// time stay. Where the text that comes back is blank, nothing changes at
/// all and nothing is saved.
pub proof fn editing_changes_one_text(
    pre: SessionView,
    index: int,
    edited: Seq<char>,
    post: SessionView,
    action: Action,
)
    requires
        0 <= index < pre.record.len(),
        revised(pre, index, edited, post, action),
    ensures
        post.record.len() == pre.record.len(),
        forall|i: int| 0 <= i < pre.record.len() && i != index ==> post.record[i] == pre.record[i],
        post.record[index].timestamp == pre.record[index].timestamp,
        blank(edited) ==> post.record == pre.record && post.phase is Done && !(action is Save),
        !blank(edited) ==> post.record[index].content == trimmed(edited) && action is Save,
{
}

/// Removing the entry at `index` makes the record shorter by exactly one
/// entry, that one; the entries before it stay where they were, and those
/// behind it move up by one, in their order.
pub proof fn removing_takes_one_out(
    pre: SessionView,
    index: usize,
    post: SessionView,
    action: Action,
)
    requires
        index < pre.record.len(),
        chosen(pre, true, Some(index), post, action),
    ensures
        post.record.len() == pre.record.len() - 1,
        forall|i: int| 0 <= i < index ==> post.record[i] == pre.record[i],
        forall|i: int| index <= i < post.record.len() ==> post.record[i] == pre.record[i + 1],
        action is Save,
{
}

/// A missing file is read as the empty record, and is no failure.
pub proof fn missing_file_is_an_empty_record(
    intent: Intent,
    now: int,
    post: SessionView,
    action: Action,
)
    requires
        loaded(intent, FileState::Missing, now, post, action),
    ensures
        opened(intent, Seq::<EntryView>::empty(), now, post, action),
        !(action matches Action::Finish(Outcome::Failed(_))),
{
}

/// A file that does not hold a record ends the session in failure: it is
/// never taken for an empty record, and nothing is saved over it.
pub proof fn corrupt_file_is_a_failure(
    intent: Intent,
    why: String,
    now: int,
    post: SessionView,
    action: Action,
)
    requires
        loaded(intent, FileState::Malformed(why), now, post, action),
    ensures
        action matches Action::Finish(Outcome::Failed(BragError::Parse(m))) && m@ == why@,
        post.phase is Done,
{
}

/// Every step brings a session nearer to its end: no session takes more
/// than four steps.
pub proof fn steps_make_progress(pre: SessionView, event: Event, post: SessionView, action: Action)
    requires
        pre.coherent(),
        expects(pre, event),
        stepped(pre, event, post, action),
    ensures
        post.coherent(),
        post.steps_left() < pre.steps_left(),
        pre.steps_left() <= 4,
{
}

/// A session ends exactly when its action is final: an outcome is named in
/// the step that ends the session, and a session that has ended waits for
/// nothing.
pub proof fn sessions_end_once(pre: SessionView, event: Event, post: SessionView, action: Action)
    requires
        pre.coherent(),
        expects(pre, event),
        stepped(pre, event, post, action),
    ensures
        action is Finish <==> post.phase is Done,
        !(action is ShowRaw) && !(action is Load),
        post.phase is Done ==> forall|later: Event| !expects(post, later),
{
}

/// The record is saved at most once in a session: the step that asks for it
/// is the one that begins to wait for it, and the step after that ends the
/// session, telling of the change where the record was saved and of the
/// failure where it was not.
pub proof fn saved_at_most_once(pre: SessionView, event: Event, post: SessionView, action: Action)
    requires
        pre.coherent(),
        expects(pre, event),
        stepped(pre, event, post, action),
    ensures
        action is Save <==> post.phase is Saving,
        pre.phase is Saving ==> action is Finish && post.record == pre.record,
        action matches Action::Finish(Outcome::Saved(change)) ==> pre.phase == Phase::Saving(
            change,
        ) && event is Saved,
        pre.phase is Saving && event is SaveFailed ==> action matches Action::Finish(
            Outcome::Failed(BragError::Io(_)),
        ),
{
}

/// A step that does not ask for the record to be saved leaves it as it
/// was, or as it was read.
pub proof fn unsaved_steps_change_nothing(
    pre: SessionView,
    event: Event,
    post: SessionView,
    action: Action,
)
    requires
        pre.coherent(),
        expects(pre, event),
        stepped(pre, event, post, action),
        !(action is Save),
    ensures
        event matches Event::Loaded(file) ==> post.record == held(file),
        !(event is Loaded) ==> post.record == pre.record,
{
}

} // verus!
