use mediaportal_api::config::fallback_config;
use mediaportal_api::flow::{advance, begin, Flow, Request};
use mediaportal_api::library::{keyed, media_name};
use mediaportal_api::protocol::{fits, Action, Answer, Expect, Query, Reply};
use mediaportal_api::structs::{Down, FileUpload, Media, Uid, Yt};

fn step(flow: Flow, a: Answer) -> (Flow, Action) {
    assert!(flow.can_take(&a));
    advance(&fallback_config(), flow, a)
}

fn s(x: &str) -> String {
    x.to_string()
}

fn media(mid: i32, name: &str, format: i32) -> Media {
    Media { mid, mname: s(name), mformat: format }
}

#[test]
fn medialist_keys_by_position() {
    let (f, a) = begin(Request::Medialist(Uid { uid: 4 }));
    assert_eq!(a, Action::Perform(Query::UidExists(4)));
    let (f, a) = step(f, Answer::Flag(true));
    assert_eq!(a, Action::Perform(Query::ListMedia(4)));
    let rows: Vec<Media> = (0..12).map(|i| media(100 + i, "m.mp3", 1)).collect();
    let (_, a) = step(f, Answer::Media(rows.clone()));
    match a {
        Action::Respond(Reply::MediaList(entries)) => {
            assert_eq!(entries.len(), 12);
            assert_eq!(entries[0], (s("0"), rows[0].clone()));
            assert_eq!(entries[11], (s("11"), rows[11].clone()));
        },
        other => panic!("unexpected {:?}", other),
    }
}

#[test]
fn medialist_empty_and_unknown() {
    assert!(keyed(&Vec::new()).is_empty());
    let (f, _) = begin(Request::Medialist(Uid { uid: 4 }));
    let (_, a) = step(f, Answer::Flag(false));
    assert_eq!(a, Action::Respond(Reply::Failure(s("User does not exist!"))));
}

fn logged_in(req: Request) -> (Flow, Action) {
    let (f, _) = begin(req);
    let (f, a) = step(f, Answer::Flag(true));
    assert!(matches!(a, Action::Perform(Query::LoggedByUid(_))));
    step(f, Answer::Flag(true))
}

#[test]
fn download_of_owned_medium() {
    let (f, a) = logged_in(Request::Download(Down { uid: 2, mid: 9 }));
    assert_eq!(a, Action::Perform(Query::FetchMedia(2, 9)));
    let (_, a) = step(f, Answer::Blob(Some(vec![1, 2, 3])));
    assert_eq!(a, Action::Respond(Reply::Binary(vec![1, 2, 3])));
}

#[test]
fn download_of_foreign_medium() {
    let (f, _) = logged_in(Request::Download(Down { uid: 2, mid: 9 }));
    let (_, a) = step(f, Answer::Blob(None));
    assert_eq!(a, Action::Respond(Reply::Failure(s("Invalid mid!"))));
}

#[test]
fn download_when_logged_out() {
    let (f, _) = begin(Request::Download(Down { uid: 2, mid: 9 }));
    let (f, _) = step(f, Answer::Flag(true));
    let (_, a) = step(f, Answer::Flag(false));
    assert_eq!(a, Action::Respond(Reply::Failure(s("User is not logged in!"))));
}

#[test]
fn download_for_unknown_account() {
    let (f, _) = begin(Request::Download(Down { uid: 2, mid: 9 }));
    let (_, a) = step(f, Answer::Flag(false));
    assert_eq!(a, Action::Respond(Reply::Failure(s("User does not exist!"))));
}

fn yt(format: i32) -> Request {
    Request::YtDl(Yt { uid: 5, uri: s("https://youtu.be/x"), format })
}

#[test]
fn yt_dl_full_run() {
    let (f, a) = logged_in(yt(1));
    assert_eq!(a, Action::Perform(Query::MakeDir(s("./tmp/"))));
    let (f, a) = step(f, Answer::Done);
    assert_eq!(a, Action::Perform(Query::ListNames(s("./tmp//"))));
    let (f, a) = step(f, Answer::Names(vec![s("old")]));
    let name = match a {
        Action::Perform(Query::RunYtDlp(opts, uri, loc)) => {
            assert_eq!(opts, vec!["-x", "--audio-format", "mp3", "--audio-quality", "0"]);
            assert_eq!(uri, "https://youtu.be/x");
            assert!(loc.starts_with("-o./tmp//"));
            assert!(loc.ends_with("/%(title)s.%(ext)s"));
            let name = loc["-o./tmp//".len()..loc.len() - "/%(title)s.%(ext)s".len()].to_string();
            assert_eq!(name.len(), 16);
            assert_ne!(name, "old");
            name
        },
        other => panic!("unexpected {:?}", other),
    };
    let (f, a) = step(f, Answer::Done);
    assert_eq!(a, Action::Perform(Query::ListPaths(format!("./tmp//{}", name))));
    let path = format!("./tmp//{}/Ünïcode Title.mp3", name);
    let (f, a) = step(f, Answer::Names(vec![path.clone()]));
    assert_eq!(a, Action::Perform(Query::ReadFile(path)));
    let (f, a) = step(f, Answer::Bytes(vec![9, 9]));
    assert_eq!(a, Action::Perform(Query::RemoveDir(format!("./tmp//{}", name))));
    let (f, a) = step(f, Answer::Failed(s("busy")));
    assert_eq!(a, Action::Perform(Query::InsertMedia(5, vec![9, 9], s("ncode Title.mp3"), 1)));
    let (f, a) = step(f, Answer::Done);
    assert_eq!(a, Action::Perform(Query::LatestMid));
    let (f, a) = step(f, Answer::Mid(42));
    assert_eq!(
        a,
        Action::Respond(Reply::Stored {
            mid: 42,
            message: s("Successfully downloaded https://youtu.be/x"),
            filename: s("ncode Title.mp3"),
        })
    );
    assert!(matches!(f, Flow::Finished));
}

#[test]
fn yt_dl_invalid_format() {
    let (_, a) = logged_in(yt(7));
    assert_eq!(a, Action::Respond(Reply::Failure(s("Supplied invalid format"))));
}

#[test]
fn yt_dl_not_logged_in() {
    let (f, _) = begin(yt(1));
    let (f, _) = step(f, Answer::Flag(true));
    let (_, a) = step(f, Answer::Flag(false));
    assert_eq!(a, Action::Respond(Reply::Failure(s("User is not logged in"))));
}

#[test]
fn yt_dl_tool_failure() {
    let (f, _) = logged_in(yt(2));
    let (f, _) = step(f, Answer::Done);
    let (f, a) = step(f, Answer::Names(vec![]));
    assert!(matches!(a, Action::Perform(Query::RunYtDlp(_, _, _))));
    let (_, a) = step(f, Answer::Failed(s("exit status 1")));
    assert_eq!(a, Action::Respond(Reply::Failure(s("Failed to download video; Verify URL"))));
}

#[test]
fn yt_dl_tmp_folder_failure() {
    let (f, _) = logged_in(yt(3));
    let (_, a) = step(f, Answer::Failed(s("Permission denied")));
    assert_eq!(
        a,
        Action::Respond(Reply::Failure(s("Failed to create tmp name Failed creating tmp folder; Reason: Permission denied")))
    );
}

#[test]
fn yt_dl_tmp_listing_failure() {
    let (f, _) = logged_in(yt(3));
    let (f, _) = step(f, Answer::Done);
    let (_, a) = step(f, Answer::Failed(s("Not a directory")));
    assert_eq!(
        a,
        Action::Respond(Reply::Failure(s("Failed to create tmp name Failed to read tmp dir; Reason: Not a directory")))
    );
}

#[test]
fn yt_dl_unreadable_file() {
    let (f, _) = logged_in(yt(1));
    let (f, _) = step(f, Answer::Done);
    let (f, _) = step(f, Answer::Names(vec![]));
    let (f, _) = step(f, Answer::Done);
    let (f, _) = step(f, Answer::Names(vec![s("./tmp//a/b.mp3")]));
    let (_, a) = step(f, Answer::Failed(s("failed to open file; reason: NotFound")));
    assert_eq!(
        a,
        Action::Respond(Reply::Failure(s("Failed reading file; Reason: failed to open file; reason: NotFound")))
    );
}

#[test]
fn empty_download_listing_does_not_fit() {
    let (f, _) = logged_in(yt(1));
    let (f, _) = step(f, Answer::Done);
    let (f, _) = step(f, Answer::Names(vec![]));
    let (f, _) = step(f, Answer::Done);
    assert_eq!(f.expecting(), Expect::SomeNames);
    assert!(!fits(f.expecting(), &Answer::Names(vec![])));
}

fn upload(format: i32) -> Request {
    Request::Convert(FileUpload { file_path: Some(s("/tmp/up123")), file_name: Some(s("Live Set.wav.part")), format, uid: 8 })
}

#[test]
fn convert_full_run() {
    let (f, a) = logged_in(upload(2));
    assert_eq!(a, Action::Perform(Query::MakeDir(s("./tmp/"))));
    let (f, _) = step(f, Answer::Done);
    let (f, a) = step(f, Answer::Names(vec![]));
    let dir = match a {
        Action::Perform(Query::MakeDir(d)) => d,
        other => panic!("unexpected {:?}", other),
    };
    assert!(dir.starts_with("./tmp//"));
    assert_eq!(dir.len(), "./tmp//".len() + 16);
    let (f, a) = step(f, Answer::Done);
    let out = format!("{}/Live Set.wav.mp4", dir);
    assert_eq!(a, Action::Perform(Query::RunFfmpeg(vec![s("-i"), s("/tmp/up123"), s("-an"), out.clone()])));
    let (f, a) = step(f, Answer::Done);
    assert_eq!(a, Action::Perform(Query::ReadFile(out)));
    let (f, a) = step(f, Answer::Bytes(vec![0]));
    assert_eq!(a, Action::Perform(Query::RemoveDir(dir)));
    let (f, a) = step(f, Answer::Done);
    assert_eq!(a, Action::Perform(Query::InsertMedia(8, vec![0], s("Live Set.wav.mp4"), 2)));
    let (f, _) = step(f, Answer::Done);
    let (_, a) = step(f, Answer::Mid(5));
    assert_eq!(
        a,
        Action::Respond(Reply::Stored { mid: 5, message: s("Successfully converted to Live Set.wav.mp4"), filename: s("Live Set.wav.mp4") })
    );
}

#[test]
fn convert_invalid_format_after_folder() {
    let (f, _) = logged_in(upload(0));
    let (f, _) = step(f, Answer::Done);
    let (f, a) = step(f, Answer::Names(vec![]));
    assert!(matches!(a, Action::Perform(Query::MakeDir(_))));
    let (_, a) = step(f, Answer::Done);
    assert_eq!(a, Action::Respond(Reply::Failure(s("Supplied invalid format"))));
}

#[test]
fn convert_tool_failure_cleans_up() {
    let (f, _) = logged_in(upload(1));
    let (f, _) = step(f, Answer::Done);
    let (f, _) = step(f, Answer::Names(vec![]));
    let (f, a) = step(f, Answer::Done);
    let dir = match a {
        Action::Perform(Query::RunFfmpeg(args)) => {
            assert!(args[2].ends_with("/Live Set.wav.mp3"));
            args[2][..args[2].len() - "/Live Set.wav.mp3".len()].to_string()
        },
        other => panic!("unexpected {:?}", other),
    };
    let (f, a) = step(f, Answer::Failed(s("exit status 1")));
    assert_eq!(a, Action::Perform(Query::RemoveDir(dir)));
    let (_, a) = step(f, Answer::Failed(s("gone")));
    assert_eq!(a, Action::Respond(Reply::Failure(s("Failed to convert media; Check format / content!"))));
}

#[test]
fn convert_dir_failure() {
    let (f, _) = logged_in(upload(1));
    let (f, _) = step(f, Answer::Done);
    let (f, _) = step(f, Answer::Names(vec![]));
    let (_, a) = step(f, Answer::Failed(s("No space left")));
    assert_eq!(a, Action::Respond(Reply::Failure(s("Failed creating tmp folder; Reason: No space left"))));
}

#[test]
fn convert_not_logged_in() {
    let (f, _) = begin(upload(1));
    let (f, _) = step(f, Answer::Flag(true));
    let (_, a) = step(f, Answer::Flag(false));
    assert_eq!(a, Action::Respond(Reply::Failure(s("User is not logged in"))));
}

#[test]
fn storage_names() {
    assert_eq!(media_name("./tmp//abc/Café – Song.webm"), "Caf  Song.webm");
    assert_eq!(media_name("plain.mp3"), "plain.mp3");
}

#[test]
fn every_request_answers_within_bound() {
    let (mut f, mut a) = logged_in(yt(1));
    let mut steps = 2;
    loop {
        match a {
            Action::Respond(_) => break,
            Action::Perform(q) => {
                let answer = match q {
                    Query::ListNames(_) => Answer::Names(vec![]),
                    Query::ListPaths(p) => Answer::Names(vec![format!("{}/v.mp3", p)]),
                    Query::ReadFile(_) => Answer::Bytes(vec![]),
                    Query::LatestMid => Answer::Mid(1),
                    _ => Answer::Done,
                };
                let (f2, a2) = step(f, answer);
                f = f2;
                a = a2;
                steps += 1;
            },
        }
    }
    assert!(steps <= 11);
}

#[test]
fn database_errors_reach_the_client() {
    let (f, _) = begin(Request::Download(Down { uid: 2, mid: 9 }));
    let (f, _) = step(f, Answer::Flag(true));
    let (_, a) = step(f, Answer::Failed(s("Lost connection")));
    assert_eq!(a, Action::Respond(Reply::Failure(s("Lost connection"))));
    let (f, _) = begin(Request::Medialist(Uid { uid: 1 }));
    let (f, _) = step(f, Answer::Flag(true));
    let (_, a) = step(f, Answer::Failed(s("Unknown column")));
    assert_eq!(a, Action::Respond(Reply::Failure(s("Unknown column"))));
    let (f, _) = logged_in(yt(1));
    let (f, _) = step(f, Answer::Done);
    let (f, _) = step(f, Answer::Names(vec![]));
    let (f, _) = step(f, Answer::Done);
    let (f, _) = step(f, Answer::Names(vec![s("t/a/v.mp3")]));
    let (f, _) = step(f, Answer::Bytes(vec![]));
    let (f, _) = step(f, Answer::Done);
    let (f, _) = step(f, Answer::Done);
    let (_, a) = step(f, Answer::Failed(s("Deadlock")));
    assert_eq!(a, Action::Respond(Reply::Failure(s("Deadlock"))));
}

#[test]
fn upload_without_name_stops_after_login_check() {
    let req = Request::Convert(FileUpload { file_path: Some(s("/tmp/up")), file_name: None, format: 1, uid: 8 });
    let (f, _) = begin(req);
    let (f, a) = step(f, Answer::Flag(true));
    assert_eq!(a, Action::Perform(Query::LoggedByUid(8)));
    assert!(f.can_take(&Answer::Flag(false)));
    assert!(!f.can_take(&Answer::Flag(true)));
    let (_, a) = step(f, Answer::Flag(false));
    assert_eq!(a, Action::Respond(Reply::Failure(s("User is not logged in"))));
}
