//! The record: every entry, in the order in which they were added.

use vstd::prelude::*;
use crate::time::{representable, Stamp};
use crate::entry::{Entry, EntryView};
use crate::error::BragError;
use crate::text::{blank, trimmed};

verus! {

/// The entries of a sequence, each as what it is.
pub open spec fn views(entries: Seq<Entry>) -> Seq<EntryView> {
    entries.map_values(|e: Entry| e@)
}

/// The texts of a sequence of strings.
pub open spec fn texts(strings: Seq<String>) -> Seq<Seq<char>> {
    strings.map_values(|s: String| s@)
}

/// A record is valid when each of its entries is.
pub open spec fn valid_record(record: Seq<EntryView>) -> bool {
    forall|i: int| 0 <= i < record.len() ==> (#[trigger] record[i]).valid()
}

/// The texts of a record's entries, in order.
pub open spec fn contents(record: Seq<EntryView>) -> Seq<Seq<char>> {
    record.map_values(|e: EntryView| e.content)
}

/// The lines that show a record, one for each entry, in order.
pub open spec fn listing(record: Seq<EntryView>) -> Seq<Seq<char>> {
    record.map_values(|e: EntryView| e.line())
}

/// Rows as contracts see them: each a text and a creation time.
pub open spec fn row_views(rows: Seq<(String, i64)>) -> Seq<(Seq<char>, int)> {
    rows.map_values(|r: (String, i64)| (r.0@, r.1 as int))
}

/// A record taken apart: for each entry its text and its creation time.
pub open spec fn rows_of(record: Seq<EntryView>) -> Seq<(Seq<char>, int)> {
    record.map_values(|e: EntryView| (e.content, e.timestamp))
}

/// The record that rows stand for: for each row an entry with its text and
/// its creation time.
pub open spec fn record_of(rows: Seq<(Seq<char>, int)>) -> Seq<EntryView> {
    rows.map_values(|r: (Seq<char>, int)| EntryView { content: r.0, timestamp: r.1 })
}

/// Every row's creation time has a calendar date.
pub open spec fn dated(rows: Seq<(Seq<char>, int)>) -> bool {
    forall|i: int| 0 <= i < rows.len() ==> representable((#[trigger] rows[i]).1)
}

/// What is said of a row whose creation time has no calendar date.
pub open spec fn undated_text() -> Seq<char> {
    "value is not a legal timestamp"@
}

/// `after` is `before` with one entry more, at the end, which holds the
/// text `content` and was made at the time `at`.
pub open spec fn appended(
    before: Seq<EntryView>,
    content: Seq<char>,
    at: int,
    after: Seq<EntryView>,
) -> bool {
    after == before.push(EntryView { content, timestamp: at })
}

/// What was found where the record is kept.
#[derive(Debug)]
pub enum FileState {
    /// There is no file yet.
    Missing,
    /// The file is there and could not be read; carries what the file system said.
    Unreadable(String),
    /// The file was read and does not hold a record; carries what the decoder said.
    Malformed(String),
    /// The file holds these entries, in this order: of each its text and
    /// its creation time in seconds since the epoch.
    Holds(Vec<(String, i64)>),
}

/// The brag list: an ordered collection of entries. The same text may occur
/// more than once.
#[derive(Debug)]
pub struct Brag {
    entries: Vec<Entry>,
}

impl View for Brag {
    type V = Seq<EntryView>;

    closed spec fn view(&self) -> Seq<EntryView> {
        views(self.entries@)
    }
}

impl Brag {
    /// The record with no entries.
    pub fn new() -> (b: Brag)
        ensures
            b@ == Seq::<EntryView>::empty(),
    {
        let b = Brag { entries: Vec::new() };
        assert(b@ =~= Seq::<EntryView>::empty());
        b
    }

    /// The record made of the given entries, in their order.
    pub fn from_entries(entries: Vec<Entry>) -> (b: Brag)
        ensures
            b@ == views(entries@),
    {
        Brag { entries }
    }

    /// The record that the given rows stand for, in their order. A row
    /// whose creation time has no calendar date is refused, and with it the
    /// whole record.
    pub fn from_rows(rows: Vec<(String, i64)>) -> (r: Result<Brag, BragError>)
        ensures
            dated(row_views(rows@)) ==> (r matches Ok(b) && b@ == record_of(row_views(rows@))),
            !dated(row_views(rows@)) ==> (r matches Err(BragError::Parse(m)) && m@
                == undated_text()),
    {
        let mut entries: Vec<Entry> = Vec::new();
        let n: usize = rows.len();
        let mut i: usize = 0;
        while i < n
            invariant
                i <= n,
                n == rows@.len(),
                entries@.len() == i,
                forall|k: int| 0 <= k < i ==> representable(#[trigger] rows@[k].1 as int),
                forall|k: int|
                    0 <= k < i ==> (#[trigger] entries@[k])@ == (EntryView {
                        content: rows@[k].0@,
                        timestamp: rows@[k].1 as int,
                    }),
            decreases n - i,
        {
            match Entry::with_timestamp(rows[i].0.as_str(), rows[i].1) {
                Some(entry) => entries.push(entry),
                None => {
                    assert(!representable(row_views(rows@)[i as int].1));
                    return Err(BragError::Parse("value is not a legal timestamp".to_owned()));
                },
            }
            i = i + 1;
        }
        let b = Brag { entries };
        proof {
            assert forall|k: int| 0 <= k < n implies representable(
                (#[trigger] row_views(rows@)[k]).1,
            ) by {
                assert(representable(rows@[k].1 as int));
            }
            assert(b@ =~= record_of(row_views(rows@)));
        }
        Ok(b)
    }

    /// The record taken apart: for each entry its text and its creation
    /// time, in the record's order.
    pub fn rows(&self) -> (rows: Vec<(String, i64)>)
        ensures
            row_views(rows@) == rows_of(self@),
            dated(row_views(rows@)),
    {
        let mut rows: Vec<(String, i64)> = Vec::new();
        let n: usize = self.entries.len();
        let mut i: usize = 0;
        while i < n
            invariant
                i <= n,
                n == self.entries@.len(),
                rows@.len() == i,
                forall|k: int| 0 <= k < i ==> representable(#[trigger] rows@[k].1 as int),
                forall|k: int|
                    0 <= k < i ==> (#[trigger] rows@[k]).0@ == self@[k].content && rows@[k].1
                        == self@[k].timestamp,
            decreases n - i,
        {
            let entry = &self.entries[i];
            rows.push((entry.content().to_owned(), entry.timestamp()));
            i = i + 1;
        }
        proof {
            assert(row_views(rows@) =~= rows_of(self@));
            assert forall|k: int| 0 <= k < n implies representable(
                (#[trigger] row_views(rows@)[k]).1,
            ) by {
                assert(representable(rows@[k].1 as int));
            }
        }
        rows
    }

    /// The record that a look at its file gives: none yet where the file is
    /// missing, the file's entries where it holds a record, and an error
    /// where it could not be read or does not hold a record.
    pub fn read(file: FileState) -> (r: Result<Brag, BragError>)
        ensures
            match file {
                FileState::Missing => r matches Ok(b) && b@ == Seq::<EntryView>::empty(),
                FileState::Holds(rows) => if dated(row_views(rows@)) {
                    r matches Ok(b) && b@ == record_of(row_views(rows@))
                } else {
                    r matches Err(BragError::Parse(m)) && m@ == undated_text()
                },
                FileState::Malformed(why) => r matches Err(BragError::Parse(m)) && m@ == why@,
                FileState::Unreadable(why) => r matches Err(BragError::Io(m)) && m@ == why@,
            },
    {
        match file {
            FileState::Missing => Ok(Brag::new()),
            FileState::Holds(rows) => Brag::from_rows(rows),
            FileState::Malformed(why) => Err(BragError::Parse(why)),
            FileState::Unreadable(why) => Err(BragError::Io(why)),
        }
    }

    /// How many entries the record holds.
    pub fn len(&self) -> (n: usize)
        ensures
            n == self@.len(),
    {
        self.entries.len()
    }

    /// Whether the record holds no entry.
    pub fn is_empty(&self) -> (b: bool)
        ensures
            b == (self@.len() == 0),
    {
        self.entries.len() == 0
    }

    /// The entry at `index`, if there is one.
    pub fn get(&self, index: usize) -> (r: Option<&Entry>)
        ensures
            r is Some <==> index < self@.len(),
            r matches Some(e) ==> e@ == self@[index as int],
    {
        if index < self.entries.len() {
            Some(&self.entries[index])
        } else {
            None
        }
    }

    /// Appends a new entry with the given text, taken as it is, made at the
    /// given time.
    pub fn add(&mut self, text: &str, at: Stamp)
        ensures
            appended(old(self)@, text@, at@, final(self)@),
            final(self)@.last().valid(),
    {
        let entry = Entry::new(text, at);
        self.entries.push(entry);
        assert(final(self)@ =~= old(self)@.push(EntryView { content: text@, timestamp: at@ }));
    }

    /// Appends a new entry, made at the given time, with the text that an
    /// editor handed back, without its surrounding white space. A blank text
    /// is refused and nothing is added.
    pub fn add_edited(&mut self, edited: &str, at: Stamp) -> (r: Result<(), BragError>)
        ensures
            blank(edited@) ==> r == Err::<(), BragError>(BragError::InvalidEdit) && final(self)@
                == old(self)@,
            !blank(edited@) ==> r is Ok && appended(
                old(self)@,
                trimmed(edited@),
                at@,
                final(self)@,
            ) && final(self)@.last().valid(),
    {
        let mut entry = Entry::new("", at);
        match entry.edit(edited) {
            Ok(()) => {
                self.entries.push(entry);
                assert(final(self)@ =~= old(self)@.push(
                    EntryView { content: trimmed(edited@), timestamp: at@ },
                ));
                Ok(())
            },
            Err(e) => Err(e),
        }
    }

    /// Replaces the text of the entry at `index` by what an editor handed
    /// back, without its surrounding white space. A blank text is refused
    /// and the record stays as it was. No other entry changes, and no
    /// creation time does.
    pub fn edit(&mut self, index: usize, edited: &str) -> (r: Result<(), BragError>)
        requires
            index < old(self)@.len(),
        ensures
            blank(edited@) ==> r == Err::<(), BragError>(BragError::InvalidEdit) && final(self)@
                == old(self)@,
            !blank(edited@) ==> r is Ok && final(self)@ == old(self)@.update(
                index as int,
                old(self)@[index as int].with_content(trimmed(edited@)),
            ),
    {
        let r = self.entries[index].edit(edited);
        proof {
            if blank(edited@) {
                assert(final(self)@ =~= old(self)@);
            } else {
                assert(final(self)@ =~= old(self)@.update(
                    index as int,
                    old(self)@[index as int].with_content(trimmed(edited@)),
                ));
            }
        }
        r
    }

    /// Takes the entry at `index` out of the record. The entries behind it
    /// move up by one; their order stays.
    pub fn remove(&mut self, index: usize) -> (removed: Entry)
        requires
            index < old(self)@.len(),
        ensures
            final(self)@ == old(self)@.remove(index as int),
            removed@ == old(self)@[index as int],
    {
        let removed = self.entries.remove(index);
        assert(final(self)@ =~= old(self)@.remove(index as int));
        removed
    }

    /// The texts among which one entry is chosen, in the record's order. An
    /// empty record offers no choice.
    pub fn choices(&self) -> (r: Result<Vec<String>, BragError>)
        ensures
            self@.len() == 0 ==> r == Err::<Vec<String>, BragError>(BragError::EmptySelection),
            self@.len() > 0 ==> (r matches Ok(items) && texts(items@) == contents(self@)),
    {
        if self.entries.len() == 0 {
            return Err(BragError::EmptySelection);
        }
        let mut items: Vec<String> = Vec::new();
        let n: usize = self.entries.len();
        let mut i: usize = 0;
        while i < n
            invariant
                i <= n,
                n == self.entries@.len(),
                items@.len() == i,
                forall|k: int| 0 <= k < i ==> (#[trigger] items@[k])@ == self@[k].content,
            decreases n - i,
        {
            items.push(self.entries[i].content().to_owned());
            i = i + 1;
        }
        assert(texts(items@) =~= contents(self@));
        Ok(items)
    }

    /// The lines that show the record: one for each entry, in the record's order.
    pub fn view_lines(&self) -> (lines: Vec<String>)
        ensures
            valid_record(self@),
            texts(lines@) == listing(self@),
    {
        let mut lines: Vec<String> = Vec::new();
        let n: usize = self.entries.len();
        let mut i: usize = 0;
        while i < n
            invariant
                i <= n,
                n == self.entries@.len(),
                lines@.len() == i,
                forall|k: int| 0 <= k < i ==> (#[trigger] self@[k]).valid(),
                forall|k: int| 0 <= k < i ==> (#[trigger] lines@[k])@ == self@[k].line(),
            decreases n - i,
        {
            lines.push(self.entries[i].line());
            i = i + 1;
        }
        assert(texts(lines@) =~= listing(self@));
        lines
    }
}

} // verus!
