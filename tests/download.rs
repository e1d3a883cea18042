use mdl::download::{plan_group, run_succeeded, summarize_group, DownloadRun, ErrorKind, GroupOutcome};
use mdl::event::{index_csv, Event, EventSummary, Group, Recording};
use mdl::layout::{index_file, plan_event, Artifact, FileParams};
use mdl::timestamp::Timestamp;
use mdl::transcript::{Phrase, Transcript};

fn summary(id: &str, title: &str, published: bool) -> EventSummary {
    EventSummary { id: String::from(id), title: String::from(title), published }
}

fn event(id: &str, transcript: Option<Transcript>, url: Option<&str>) -> Event {
    Event {
        id: String::from(id),
        title: String::from("title"),
        recording: Recording { id: String::from("r"), presigned_url: url.map(String::from) },
        published: true,
        transcript,
    }
}

#[test]
fn index_with_comma_in_title() {
    let events = vec![summary("e1", "Intro, Part 1", true)];
    assert_eq!(index_csv(&events), "ID,Title,Published\ne1,Intro, Part 1,true\n");
}

#[test]
fn index_empty_and_several() {
    assert_eq!(index_csv(&vec![]), "ID,Title,Published\n");
    let events = vec![summary("a", "A", false), summary("b", "B", true)];
    assert_eq!(index_csv(&events), "ID,Title,Published\na,A,false\nb,B,true\n");
}

#[test]
fn group_plan_launches_every_event() {
    let events = vec![summary("a", "A", false), summary("b", "B", true)];
    let plan = plan_group(&events);
    assert_eq!(plan.index, "ID,Title,Published\na,A,false\nb,B,true\n");
    assert_eq!(plan.event_ids, vec![String::from("a"), String::from("b")]);
}

#[test]
fn one_failed_event_of_ten() {
    let events: Vec<EventSummary> =
        (1..=10).map(|i| summary(&format!("e{}", i), "t", true)).collect();
    let results: Vec<Result<(), ErrorKind>> =
        (1..=10).map(|i| if i == 5 { Err(ErrorKind::Network) } else { Ok(()) }).collect();
    let report = summarize_group(&events, &results);
    assert_eq!(report.events, 10);
    assert_eq!(report.failed, vec![String::from("e5")]);
    assert!(!report.all_failed());
    let outcomes = vec![GroupOutcome::Downloaded(report)];
    assert!(!outcomes[0].is_failure());
    assert!(run_succeeded(&outcomes));
}

#[test]
fn all_events_failed_fails_group() {
    let events = vec![summary("a", "A", true), summary("b", "B", true)];
    let results = vec![Err(ErrorKind::Decode), Err(ErrorKind::Filesystem)];
    let report = summarize_group(&events, &results);
    assert_eq!(report.failed, vec![String::from("a"), String::from("b")]);
    assert!(report.all_failed());
    assert!(!run_succeeded(&vec![GroupOutcome::Downloaded(report)]));
}

#[test]
fn empty_group_does_not_fail() {
    let report = summarize_group(&vec![], &vec![]);
    assert_eq!(report.events, 0);
    assert!(report.failed.is_empty());
    assert!(!report.all_failed());
    assert!(run_succeeded(&vec![GroupOutcome::Downloaded(report)]));
}

#[test]
fn listing_or_prepare_failure_fails_run() {
    let ok = summarize_group(&vec![summary("a", "A", true)], &vec![Ok(())]);
    let outcomes = vec![GroupOutcome::ListingFailed(ErrorKind::Network), GroupOutcome::Downloaded(ok)];
    assert!(outcomes[0].is_failure());
    assert!(!run_succeeded(&outcomes));
    assert!(GroupOutcome::PrepareFailed(ErrorKind::Filesystem).is_failure());
    assert!(run_succeeded(&vec![]));
}

#[test]
fn event_without_payload_yields_nothing() {
    let e = event("e7", None, None);
    assert!(plan_event("e7", &e).is_empty());
}

#[test]
fn event_with_transcript_and_recording() {
    let t = Transcript {
        phrases: vec![Phrase {
            id: String::from("p1"),
            text: String::from("Hi"),
            start: Timestamp { seconds: 0, millis: 0 },
            end: Timestamp { seconds: 1, millis: 250 },
        }],
    };
    let e = event("e1", Some(t), Some("https://media.example/e1"));
    let plan = plan_event("e1", &e);
    assert_eq!(plan.len(), 2);
    match &plan[0] {
        Artifact::Subtitles { file_name, contents } => {
            assert_eq!(file_name, "e1.vtt");
            assert_eq!(contents, "WEBVTT\n\n00:00:00.000 --> 00:00:01.250\nHi\n\n");
        }
        _ => panic!("expected subtitles first"),
    }
    match &plan[1] {
        Artifact::Media { file_name, url } => {
            assert_eq!(file_name, "e1.mp4");
            assert_eq!(url, "https://media.example/e1");
        }
        _ => panic!("expected media second"),
    }
}

#[test]
fn event_with_recording_only() {
    let e = event("x", None, Some("u"));
    let plan = plan_event("x", &e);
    assert_eq!(plan.len(), 1);
    assert!(matches!(&plan[0], Artifact::Media { file_name, .. } if file_name == "x.mp4"));
}

#[test]
fn event_with_empty_transcript_only() {
    let e = event("y", Some(Transcript { phrases: vec![] }), None);
    let plan = plan_event("y", &e);
    assert_eq!(plan.len(), 1);
    assert!(matches!(&plan[0], Artifact::Subtitles { contents, .. } if contents == "WEBVTT\n\n"));
}

#[test]
fn file_names() {
    assert_eq!(index_file().file_name(), "index.csv");
    let p = FileParams::FileWithExt { name: String::from("ev"), ext: String::from("mp4") };
    assert_eq!(p.file_name(), "ev.mp4");
    assert_eq!(FileParams::FileName(String::from("raw")).file_name(), "raw");
}

#[test]
fn group_list_line() {
    let g = Group { id: String::from("g1"), name: String::from("Team") };
    assert_eq!(g.list_line(), "g1 'Team'");
}

#[test]
fn run_visits_every_group_in_order() {
    let mut run = DownloadRun::new(vec![String::from("g1"), String::from("g2"), String::from("g3")]);
    let mut seen = Vec::new();
    let mut step = 0;
    while let Some(g) = run.current_group().cloned() {
        seen.push(g);
        let outcome = if step == 0 {
            GroupOutcome::ListingFailed(ErrorKind::Network)
        } else {
            GroupOutcome::Downloaded(summarize_group(&vec![summary("e", "t", true)], &vec![Ok(())]))
        };
        run.record(outcome);
        step += 1;
    }
    assert_eq!(seen, vec![String::from("g1"), String::from("g2"), String::from("g3")]);
    assert_eq!(run.outcomes.len(), 3);
    assert!(!run.succeeded());
}

#[test]
fn run_succeeds_when_no_group_fails() {
    let mut run = DownloadRun::new(vec![String::from("g1")]);
    assert!(!run.succeeded());
    run.record(GroupOutcome::Downloaded(summarize_group(&vec![], &vec![])));
    assert!(run.current_group().is_none());
    assert!(run.succeeded());
    assert!(DownloadRun::new(vec![]).succeeded());
}
