//! Transcripts and their encoding as a WebVTT subtitle document.

use vstd::prelude::*;
use vstd::string::*;
use crate::timestamp::{format_seconds, timestamp_text, Timestamp};

verus! {

/// One timed span of transcript text.
#[derive(Clone, Debug)]
pub struct Phrase {
    pub id: String,
    pub text: String,
    pub start: Timestamp,
    pub end: Timestamp,
}

/// The phrases of an event, in the order the service gave them.
#[derive(Clone, Debug)]
pub struct Transcript {
    pub phrases: Vec<Phrase>,
}

pub open spec fn vtt_header() -> Seq<char> {
    seq!['W', 'E', 'B', 'V', 'T', 'T', '\n', '\n']
}

pub open spec fn cue_arrow() -> Seq<char> {
    seq![' ', '-', '-', '>', ' ']
}

/// The cue of one phrase: `<start> --> <end>`, the text, then a blank line.
pub open spec fn phrase_cue(p: Phrase) -> Seq<char> {
    timestamp_text(p.start) + cue_arrow() + timestamp_text(p.end) + seq!['\n'] + p.text@ + seq![
        '\n',
        '\n',
    ]
}

/// The cues of all phrases, in order, with none skipped or merged.
pub open spec fn cues(ps: Seq<Phrase>) -> Seq<char>
    decreases ps.len(),
{
    if ps.len() == 0 {
        Seq::empty()
    } else {
        cues(ps.drop_last()) + phrase_cue(ps.last())
    }
}

/// The full subtitle document: the header followed by every cue.
pub open spec fn vtt_document(ps: Seq<Phrase>) -> Seq<char> {
    vtt_header() + cues(ps)
}

impl Phrase {
    /// The cue of this phrase.
    pub fn as_vtt_string(&self) -> (r: String)
        ensures
            r@ == phrase_cue(*self),
    {
        let mut s = format_seconds(self.start);
        s.append(" --> ");
        let end = format_seconds(self.end);
        s.append(end.as_str());
        s.append("\n");
        s.append(self.text.as_str());
        s.append("\n\n");
        proof {
            reveal_strlit(" --> ");
            reveal_strlit("\n");
            reveal_strlit("\n\n");
        }
        assert(s@ =~= phrase_cue(*self));
        s
    }
}

impl Transcript {
    /// The subtitle document of this transcript; header only when it has no phrases.
    pub fn to_vtt(&self) -> (r: String)
        ensures
            r@ == vtt_document(self.phrases@),
    {
        let mut s = String::new();
        s.append("WEBVTT\n\n");
        proof {
            reveal_strlit("WEBVTT\n\n");
        }
        assert(s@ =~= vtt_header());
        let mut i: usize = 0;
        while i < self.phrases.len()
            invariant
                i <= self.phrases@.len(),
                s@ == vtt_header() + cues(self.phrases@.take(i as int)),
            decreases self.phrases@.len() - i,
        {
            let cue = self.phrases[i].as_vtt_string();
            s.append(cue.as_str());
            proof {
                let ps = self.phrases@.take(i as int + 1);
                assert(ps.drop_last() =~= self.phrases@.take(i as int));
                assert(s@ =~= vtt_header() + cues(ps));
            }
            i = i + 1;
        }
        assert(self.phrases@.take(i as int) =~= self.phrases@);
        s
    }
}

/// Encoding keeps every phrase: the document of `ps` followed by one more
/// phrase is the document of `ps` with that phrase's cue appended.
pub proof fn lemma_encoding_appends_cue(ps: Seq<Phrase>, p: Phrase)
    ensures
        vtt_document(ps.push(p)) == vtt_document(ps) + phrase_cue(p),
{
    assert(ps.push(p).drop_last() =~= ps);
    assert(vtt_document(ps.push(p)) =~= vtt_document(ps) + phrase_cue(p));
}

/// A transcript with no phrases encodes to the header alone.
pub proof fn lemma_empty_transcript_is_header()
    ensures
        vtt_document(Seq::<Phrase>::empty()) == vtt_header(),
{
    assert(vtt_document(Seq::<Phrase>::empty()) =~= vtt_header());
}

} // verus!
