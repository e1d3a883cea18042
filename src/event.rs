//! Groups and events as the service describes them, and the index file
//! that maps event IDs back to their titles.

use vstd::prelude::*;
use vstd::string::*;
use crate::transcript::Transcript;

verus! {

/// A named collection of events owned by a user.
#[derive(Clone, Debug)]
pub struct Group {
    pub id: String,
    pub name: String,
}

/// An event as the group listing gives it, without recording or transcript.
#[derive(Clone, Debug)]
pub struct EventSummary {
    pub id: String,
    pub title: String,
    pub published: bool,
}

/// The media of an event; `presigned_url` is absent until the service has processed it.
#[derive(Clone, Debug)]
pub struct Recording {
    pub id: String,
    pub presigned_url: Option<String>,
}

/// An event with its full detail.
#[derive(Clone, Debug)]
pub struct Event {
    pub id: String,
    pub title: String,
    pub recording: Recording,
    pub published: bool,
    pub transcript: Option<Transcript>,
}

/// `<id> '<name>'`, the line that lists a group.
pub open spec fn group_line(g: Group) -> Seq<char> {
    g.id@ + seq![' ', '\''] + g.name@ + seq!['\'']
}

impl Group {
    pub fn list_line(&self) -> (r: String)
        ensures
            r@ == group_line(*self),
    {
        let mut s = self.id.clone();
        s.append(" '");
        s.append(self.name.as_str());
        s.append("'");
        proof {
            reveal_strlit(" '");
            reveal_strlit("'");
        }
        assert(s@ =~= group_line(*self));
        s
    }
}

pub open spec fn bool_text(b: bool) -> Seq<char> {
    if b {
        seq!['t', 'r', 'u', 'e']
    } else {
        seq!['f', 'a', 'l', 's', 'e']
    }
}

pub open spec fn index_header() -> Seq<char> {
    seq![
        'I',
        'D',
        ',',
        'T',
        'i',
        't',
        'l',
        'e',
        ',',
        'P',
        'u',
        'b',
        'l',
        'i',
        's',
        'h',
        'e',
        'd',
        '\n',
    ]
}

/// `id,title,published` and a newline. Fields are not quoted or escaped,
/// so a title holding a comma adds columns to its row.
pub open spec fn index_row(e: EventSummary) -> Seq<char> {
    e.id@ + seq![','] + e.title@ + seq![','] + bool_text(e.published) + seq!['\n']
}

pub open spec fn index_rows(es: Seq<EventSummary>) -> Seq<char>
    decreases es.len(),
{
    if es.len() == 0 {
        Seq::empty()
    } else {
        index_rows(es.drop_last()) + index_row(es.last())
    }
}

/// The index file: the header row, then one row per event in listing order.
pub open spec fn index_document(es: Seq<EventSummary>) -> Seq<char> {
    index_header() + index_rows(es)
}

impl EventSummary {
    pub fn index_row(&self) -> (r: String)
        ensures
            r@ == index_row(*self),
    {
        let mut s = self.id.clone();
        s.append(",");
        s.append(self.title.as_str());
        s.append(",");
        if self.published {
            s.append("true");
        } else {
            s.append("false");
        }
        s.append("\n");
        proof {
            reveal_strlit(",");
            reveal_strlit("true");
            reveal_strlit("false");
            reveal_strlit("\n");
        }
        assert(s@ =~= index_row(*self));
        s
    }
}

/// The contents of a group's index file.
pub fn index_csv(events: &Vec<EventSummary>) -> (r: String)
    ensures
        r@ == index_document(events@),
{
    let mut s = String::new();
    s.append("ID,Title,Published\n");
    proof {
        reveal_strlit("ID,Title,Published\n");
    }
    assert(s@ =~= index_header());
    let mut i: usize = 0;
    while i < events.len()
        invariant
            i <= events@.len(),
            s@ == index_header() + index_rows(events@.take(i as int)),
        decreases events@.len() - i,
    {
        let row = events[i].index_row();
        s.append(row.as_str());
        proof {
            let es = events@.take(i as int + 1);
            assert(es.drop_last() =~= events@.take(i as int));
            assert(s@ =~= index_header() + index_rows(es));
        }
        i = i + 1;
    }
    assert(events@.take(i as int) =~= events@);
    s
}

} // verus!
