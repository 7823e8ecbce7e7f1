//! One achievement note and the time it was written down.

use vstd::prelude::*;
use vstd::string::StringExecFns;
use crate::time::{format_stamp, representable, stamp_text, Stamp};
use crate::error::BragError;
use crate::text::{blank, trim, trimmed};

verus! {

/// What an entry is: its text and its creation time in seconds since the epoch.
pub ghost struct EntryView {
    pub content: Seq<char>,
    pub timestamp: int,
}

impl EntryView {
    /// An entry is valid when its creation time has a calendar date.
    pub open spec fn valid(self) -> bool {
        representable(self.timestamp)
    }

    /// The entry with another text and the same creation time.
    pub open spec fn with_content(self, content: Seq<char>) -> EntryView {
        EntryView { content, timestamp: self.timestamp }
    }

    /// The line that shows the entry: date and time, a colon, the text.
    pub open spec fn line(self) -> Seq<char>
        recommends
            self.valid(),
    {
        line_text(stamp_text(self.timestamp)->Some_0, self.content)
    }
}

/// The text `stamp`, then a colon and a space, then `content`.
pub open spec fn line_text(stamp: Seq<char>, content: Seq<char>) -> Seq<char> {
    stamp + seq![':', ' '] + content
}

/// Joins a date-and-time text and an entry's text into one display line.
pub fn render_line(stamp: &str, content: &str) -> (r: String)
    ensures
        r@ == line_text(stamp@, content@),
{
    let mut r = stamp.to_owned();
    proof {
        reveal_strlit(": ");
    }
    r.append(": ");
    r.append(content);
    assert(": "@ =~= seq![':', ' ']);
    r
}

/// One achievement note. The creation time is set when the entry is made and
/// never changes afterwards.
#[derive(Debug)]
pub struct Entry {
    content: String,
    timestamp: i64,
}

impl View for Entry {
    type V = EntryView;

    closed spec fn view(&self) -> EntryView {
        EntryView { content: self.content@, timestamp: self.timestamp as int }
    }
}

impl Entry {
    #[verifier::type_invariant]
    spec fn inv(self) -> bool {
        representable(self.timestamp as int)
    }

    /// A new entry with the given text, made at the given time. The text is
    /// taken as it is, empty or not.
    pub fn new(content: &str, at: Stamp) -> (e: Entry)
        ensures
            e@ == (EntryView { content: content@, timestamp: at@ }),
            e@.valid(),
    {
        Entry { content: content.to_owned(), timestamp: at.seconds() }
    }

    /// An entry with the given text and creation time, where that time has a
    /// calendar date.
    pub fn with_timestamp(content: &str, secs: i64) -> (r: Option<Entry>)
        ensures
            r is Some <==> representable(secs as int),
            r matches Some(e) ==> e@ == (EntryView { content: content@, timestamp: secs as int }),
    {
        match Stamp::new(secs) {
            Some(at) => Some(Entry::new(content, at)),
            None => None,
        }
    }

    /// The entry's text.
    pub fn content(&self) -> (s: &str)
        ensures
            s@ == self@.content,
    {
        self.content.as_str()
    }

    /// The entry's creation time, in seconds since the epoch.
    pub fn timestamp(&self) -> (secs: i64)
        ensures
            secs as int == self@.timestamp,
            self@.valid(),
    {
        proof {
            use_type_invariant(self);
        }
        self.timestamp
    }

    /// Replaces the text by what an editor handed back, without its
    /// surrounding white space. A blank text is refused and leaves the entry
    /// as it was. The creation time stays.
    pub fn edit(&mut self, edited: &str) -> (r: Result<(), BragError>)
        ensures
            blank(edited@) ==> r == Err::<(), BragError>(BragError::InvalidEdit) && final(self)@
                == old(self)@,
            !blank(edited@) ==> r is Ok && final(self)@ == old(self)@.with_content(
                trimmed(edited@),
            ),
    {
        proof {
            use_type_invariant(&*self);
        }
        let text = trim(edited);
        if text.as_str().is_empty() {
            Err(BragError::InvalidEdit)
        } else {
            self.content = text;
            Ok(())
        }
    }

    /// The line that shows the entry.
    pub fn line(&self) -> (s: String)
        ensures
            self@.valid(),
            s@ == self@.line(),
    {
        proof {
            use_type_invariant(self);
        }
        match format_stamp(self.timestamp) {
            Some(stamp) => render_line(stamp.as_str(), self.content.as_str()),
            None => String::new(),
        }
    }
}

} // verus!
