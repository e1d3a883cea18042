//! Names of the files written under a group's directory, and the artifacts
//! that one event yields.

use vstd::prelude::*;
use vstd::string::*;
use crate::event::Event;
use crate::transcript::vtt_document;

verus! {

/// How a file under a group's directory is named.
#[derive(Clone, Debug)]
pub enum FileParams {
    FileName(String),
    FileWithExt { name: String, ext: String },
}

pub open spec fn file_name_of(p: FileParams) -> Seq<char> {
    match p {
        FileParams::FileName(n) => n@,
        FileParams::FileWithExt { name, ext } => name@ + seq!['.'] + ext@,
    }
}

impl FileParams {
    /// The file name, relative to the group's directory.
    pub fn file_name(&self) -> (r: String)
        ensures
            r@ == file_name_of(*self),
    {
        match self {
            FileParams::FileName(n) => n.clone(),
            FileParams::FileWithExt { name, ext } => {
                let mut s = name.clone();
                s.append(".");
                s.append(ext.as_str());
                proof {
                    reveal_strlit(".");
                }
                assert(s@ =~= file_name_of(*self));
                s
            },
        }
    }
}

pub open spec fn index_file_name() -> Seq<char> {
    seq!['i', 'n', 'd', 'e', 'x', '.', 'c', 's', 'v']
}

/// The index file of a group.
pub fn index_file() -> (r: FileParams)
    ensures
        file_name_of(r) == index_file_name(),
{
    let r = FileParams::FileName(String::from_str("index.csv"));
    proof {
        reveal_strlit("index.csv");
    }
    assert(file_name_of(r) =~= index_file_name());
    r
}

/// A file to write for one event.
#[derive(Clone, Debug)]
pub enum Artifact {
    /// The encoded transcript, written as given.
    Subtitles { file_name: String, contents: String },
    /// The recording, copied from `url` as it streams in.
    Media { file_name: String, url: String },
}

/// An artifact with its strings as character sequences.
pub enum ArtifactView {
    Subtitles { file_name: Seq<char>, contents: Seq<char> },
    Media { file_name: Seq<char>, url: Seq<char> },
}

impl View for Artifact {
    type V = ArtifactView;

    open spec fn view(&self) -> ArtifactView {
        match self {
            Artifact::Subtitles { file_name, contents } => ArtifactView::Subtitles {
                file_name: file_name@,
                contents: contents@,
            },
            Artifact::Media { file_name, url } => ArtifactView::Media {
                file_name: file_name@,
                url: url@,
            },
        }
    }
}

pub open spec fn subtitle_file(event_id: Seq<char>) -> Seq<char> {
    event_id + seq!['.', 'v', 't', 't']
}

pub open spec fn media_file(event_id: Seq<char>) -> Seq<char> {
    event_id + seq!['.', 'm', 'p', '4']
}

/// The artifacts of an event: its subtitle file when it has a transcript,
/// then its media file when its recording has a download link.
pub open spec fn event_artifacts(event_id: Seq<char>, e: Event) -> Seq<ArtifactView> {
    let subtitles = match e.transcript {
        Some(t) => seq![
            ArtifactView::Subtitles {
                file_name: subtitle_file(event_id),
                contents: vtt_document(t.phrases@),
            },
        ],
        None => Seq::empty(),
    };
    let media = match e.recording.presigned_url {
        Some(u) => seq![ArtifactView::Media { file_name: media_file(event_id), url: u@ }],
        None => Seq::empty(),
    };
    subtitles + media
}

pub open spec fn views(a: Seq<Artifact>) -> Seq<ArtifactView> {
    a.map_values(|x: Artifact| x@)
}

/// The files to write for `event`, named after `event_id`.
pub fn plan_event(event_id: &str, event: &Event) -> (r: Vec<Artifact>)
    ensures
        views(r@) == event_artifacts(event_id@, *event),
{
    let mut r: Vec<Artifact> = Vec::new();
    if let Some(transcript) = &event.transcript {
        let params = FileParams::FileWithExt {
            name: String::from_str(event_id),
            ext: String::from_str("vtt"),
        };
        let file_name = params.file_name();
        let contents = transcript.to_vtt();
        proof {
            reveal_strlit("vtt");
        }
        assert(file_name@ =~= subtitle_file(event_id@));
        r.push(Artifact::Subtitles { file_name, contents });
    }
    if let Some(url) = &event.recording.presigned_url {
        let params = FileParams::FileWithExt {
            name: String::from_str(event_id),
            ext: String::from_str("mp4"),
        };
        let file_name = params.file_name();
        proof {
            reveal_strlit("mp4");
        }
        assert(file_name@ =~= media_file(event_id@));
        r.push(Artifact::Media { file_name, url: url.clone() });
    }
    assert(views(r@) =~= event_artifacts(event_id@, *event));
    r
}

/// An event with neither a transcript nor a recording link yields no file.
pub proof fn lemma_no_payload_no_artifacts(event_id: Seq<char>, e: Event)
    requires
        e.transcript is None,
        e.recording.presigned_url is None,
    ensures
        event_artifacts(event_id, e).len() == 0,
{
}

/// Every artifact of an event is named after that event and no other, and
/// the two kinds never share a name.
pub proof fn lemma_artifact_names(event_id: Seq<char>, e: Event)
    ensures
        forall|i: int|
            #![trigger event_artifacts(event_id, e)[i]]
            0 <= i < event_artifacts(event_id, e).len() ==> match event_artifacts(event_id, e)[i] {
                ArtifactView::Subtitles { file_name, .. } => file_name == subtitle_file(event_id),
                ArtifactView::Media { file_name, .. } => file_name == media_file(event_id),
            },
        subtitle_file(event_id) != media_file(event_id),
{
    let n = event_id.len() as int;
    assert(subtitle_file(event_id)[n + 1] != media_file(event_id)[n + 1]);
}

} // verus!
