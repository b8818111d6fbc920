//! The media requests: listing an account's media, fetching one, and
//! storing a new one from a video address or an uploaded file. Every one
//! but the listing first checks that the account is logged in.

use vstd::prelude::*;
use crate::accounts::passes_failure;
use crate::checks::{check_advance, check_moves, logged_uid_fn, Checked, LoggedCheck, Who};
use crate::media::joined;
use crate::protocol::{finishes_failing, prefixed, refuse, Answer, Expect, Notice, Query, Reply, Step};
use crate::structs::{Down, FileUpload, Media, Uid, Yt};
use crate::text::{
    ascii_only, ascii_part, decimal, decimal_string, is_last_component_of, is_parent_of,
    last_component, lemma_decimal_injective, parent_path,
};
use crate::tools::{
    convert_advance, convert_begins, convert_moves, ffmpeg, fetch_advance, fetch_begins,
    fetch_moves, yt_dl, Convert, Converted, Fetch, Fetched,
};
use crate::media::join;

verus! {

// ----- medialist -----

/// `entries` lists `rows` in order, each under its position as a decimal
/// numeral: "0", "1", ...
pub open spec fn keyed_by_position(entries: Seq<(String, Media)>, rows: Seq<Media>) -> bool {
    &&& entries.len() == rows.len()
    &&& forall|i: int| 0 <= i < rows.len() ==> {
        &&& (#[trigger] entries[i]).0@ == decimal(i as nat)
        &&& entries[i].1 == rows[i]
    }
}

/// The rows of an account's media under their positions.
pub fn keyed(rows: &Vec<Media>) -> (entries: Vec<(String, Media)>)
    ensures
        keyed_by_position(entries@, rows@),
{
    let mut entries: Vec<(String, Media)> = Vec::new();
    let n = rows.len();
    for i in 0..n
        invariant
            n == rows@.len(),
            entries@.len() == i,
            forall|j: int| 0 <= j < i ==> {
                &&& (#[trigger] entries@[j]).0@ == decimal(j as nat)
                &&& entries@[j].1 == rows@[j]
            },
    {
        let key = decimal_string(i as u64);
        entries.push((key, rows[i].duplicate()));
    }
    entries
}

/// No two media of a listing share a key, so none hides another.
pub proof fn lemma_keys_distinct(entries: Seq<(String, Media)>, rows: Seq<Media>, i: int, j: int)
    requires
        keyed_by_position(entries, rows),
        0 <= i < entries.len(),
        0 <= j < entries.len(),
        i != j,
    ensures
        entries[i].0@ != entries[j].0@,
{
    if entries[i].0@ == entries[j].0@ {
        assert(decimal(i as nat) == decimal(j as nat));
        lemma_decimal_injective(i as nat, j as nat);
    }
}

/// Where a media listing stands.
pub enum ListStage {
    /// Does the account of this number exist?
    AwaitUser(i32),
    /// Its media are fetched.
    AwaitMedia,
}

impl ListStage {
    /// The kind of answer the stage waits for.
    pub open spec fn expects(self) -> Expect {
        match self {
            ListStage::AwaitUser(_) => Expect::Flag,
            ListStage::AwaitMedia => Expect::Media,
        }
    }
}

/// The one move of a media listing from `stage` on `a`.
pub open spec fn list_moves(stage: ListStage, a: Answer, r: Step<ListStage, Reply>) -> bool {
    &&& passes_failure(a, r)
    &&& match stage {
        ListStage::AwaitUser(uid) => match a {
            Answer::Flag(true) => r == Step::<ListStage, Reply>::Ask(ListStage::AwaitMedia, Query::ListMedia(uid)),
            Answer::Flag(false) => finishes_failing(r, Notice::UnknownUser.words()),
            Answer::Failed(_) => true,
            _ => false,
        },
        ListStage::AwaitMedia => match a {
            Answer::Media(rows) => r matches Step::Finish(Reply::MediaList(entries)) && keyed_by_position(entries@, rows@),
            Answer::Failed(_) => true,
            _ => false,
        },
    }
}

/// Starts a media listing: asks whether the account exists.
pub fn medialist_start(req: Uid) -> (r: (ListStage, Query))
    ensures
        r.0 == ListStage::AwaitUser(req.uid),
        r.1 == Query::UidExists(req.uid),
{
    (ListStage::AwaitUser(req.uid), Query::UidExists(req.uid))
}

/// Moves a media listing on: an unknown account fails with "User does not
/// exist!", a known one has its media listed under their positions.
pub fn medialist_advance(stage: ListStage, a: Answer) -> (r: Step<ListStage, Reply>)
    requires
        crate::protocol::answer_fits(stage.expects(), a),
    ensures
        list_moves(stage, a, r),
{
    if let Answer::Failed(e) = a {
        return Step::Finish(Reply::Failure(e));
    }
    match stage {
        ListStage::AwaitUser(uid) => match a {
            Answer::Flag(true) => Step::Ask(ListStage::AwaitMedia, Query::ListMedia(uid)),
            _ => refuse(Notice::UnknownUser),
        },
        ListStage::AwaitMedia => match a {
            Answer::Media(rows) => Step::Finish(Reply::MediaList(keyed(&rows))),
            _ => vstd::pervasive::unreached(),
        },
    }
}

// ----- download -----

/// Where the download of a stored medium stands.
pub enum DownloadStage {
    /// Is the account logged in? (the check, the request)
    Checking(LoggedCheck, Down),
    /// The medium's content is fetched.
    AwaitMedia,
}

impl DownloadStage {
    /// The kind of answer the stage waits for.
    pub open spec fn expects(self) -> Expect {
        match self {
            DownloadStage::Checking(_, _) => Expect::Flag,
            DownloadStage::AwaitMedia => Expect::Blob,
        }
    }
}

/// How a request that waits for its logged-in check moves on: the check's
/// own move `s`, which stays in the check, fails, finds the account logged
/// out (failing with `refusal`), or lets the request go on with `cont`.
pub open spec fn gate_moves<S>(
    s: Step<LoggedCheck, Checked>,
    wrap: spec_fn(LoggedCheck) -> S,
    refusal: Notice,
    cont: spec_fn(Step<S, Reply>) -> bool,
    r: Step<S, Reply>,
) -> bool {
    match s {
        Step::Ask(c2, q) => r == Step::<S, Reply>::Ask(wrap(c2), q),
        Step::Finish(Err(e)) => r == Step::<S, Reply>::Finish(Reply::Failure(e)),
        Step::Finish(Ok(false)) => finishes_failing(r, refusal.words()),
        Step::Finish(Ok(true)) => cont(r),
    }
}

/// The one move of a download from `stage` on `a`.
pub open spec fn download_moves(stage: DownloadStage, a: Answer, r: Step<DownloadStage, Reply>) -> bool {
    match stage {
        DownloadStage::Checking(c, down) => exists|s: Step<LoggedCheck, Checked>| #[trigger] check_moves(c, a, s) && gate_moves(
            s,
            |c2: LoggedCheck| DownloadStage::Checking(c2, down),
            Notice::NotLoggedInToDownload,
            |r2: Step<DownloadStage, Reply>| r2 == Step::<DownloadStage, Reply>::Ask(DownloadStage::AwaitMedia, Query::FetchMedia(down.uid, down.mid)),
            r,
        ),
        DownloadStage::AwaitMedia => passes_failure(a, r) && match a {
            Answer::Blob(Some(bytes)) => r == Step::<DownloadStage, Reply>::Finish(Reply::Binary(bytes)),
            Answer::Blob(None) => finishes_failing(r, Notice::InvalidMid.words()),
            Answer::Failed(_) => true,
            _ => false,
        },
    }
}

/// Starts the download of a stored medium: checks that the account is
/// logged in.
pub fn download_start(req: Down) -> (r: (DownloadStage, Query))
    ensures
        r.0 == DownloadStage::Checking(LoggedCheck::AwaitExists(Who::Uid(req.uid)), req),
        r.1 == Query::UidExists(req.uid),
{
    let (c, q) = logged_uid_fn(req.uid);
    (DownloadStage::Checking(c, req), q)
}

/// Moves a download on: an account that is not logged in fails with "User
/// is not logged in!", a medium that the account does not own with
/// "Invalid mid!"; otherwise its content is answered.
pub fn download_advance(stage: DownloadStage, a: Answer) -> (r: Step<DownloadStage, Reply>)
    requires
        crate::protocol::answer_fits(stage.expects(), a),
    ensures
        download_moves(stage, a, r),
{
    match stage {
        DownloadStage::Checking(c, down) => match check_advance(c, a) {
            Step::Ask(c2, q) => Step::Ask(DownloadStage::Checking(c2, down), q),
            Step::Finish(Err(e)) => Step::Finish(Reply::Failure(e)),
            Step::Finish(Ok(false)) => refuse(Notice::NotLoggedInToDownload),
            Step::Finish(Ok(true)) => Step::Ask(DownloadStage::AwaitMedia, Query::FetchMedia(down.uid, down.mid)),
        },
        DownloadStage::AwaitMedia => match a {
            Answer::Blob(Some(bytes)) => Step::Finish(Reply::Binary(bytes)),
            Answer::Failed(e) => Step::Finish(Reply::Failure(e)),
            _ => refuse(Notice::InvalidMid),
        },
    }
}


// ----- yt_dl -----

/// The name under which a downloaded or converted file is stored: the
/// ASCII characters of its path's last component.
pub open spec fn stored_name(name: Seq<char>, path: Seq<char>) -> bool {
    exists|last: Seq<char>| is_last_component_of(last, path) && name == ascii_part(last)
}

/// A file is stored under the ASCII characters of its name, in order: a
/// name of ASCII characters alone is stored unchanged, every character of
/// the stored name is ASCII, and the stored name of a path is the ASCII
/// part of what follows its last `'/'`.
pub proof fn lemma_stored_name_is_ascii_of_file_name(name: Seq<char>, path: Seq<char>, last: Seq<char>)
    requires
        stored_name(name, path),
        is_last_component_of(last, path),
    ensures
        (forall|i: int| 0 <= i < last.len() ==> (#[trigger] last[i] as u32) < 128) ==> name == last,
        forall|i: int| 0 <= i < name.len() ==> (#[trigger] name[i] as u32) < 128,
        name == ascii_part(last),
{
    let l2 = choose|l2: Seq<char>| is_last_component_of(l2, path) && name == ascii_part(l2);
    crate::text::lemma_last_component_after_last_slash(last, l2, path);
    crate::text::lemma_ascii_part_keeps_ascii(last, Seq::<char>::empty(), ' ');
}

/// The storage name of the file at `path`.
pub fn media_name(path: &str) -> (name: String)
    ensures
        stored_name(name@, path@),
{
    let last = last_component(path);
    ascii_only(last.as_str())
}

/// Where a video download request stands.
pub enum YtStage {
    /// Is the account logged in? (the check, the request)
    Checking(LoggedCheck, Yt),
    /// `yt-dlp` fetches the video. (the download, the request)
    Fetching(Fetch, Yt),
    /// The first downloaded file is read. (the request, the temporary
    /// directory's name, the file's path)
    AwaitFile(Yt, String, String),
    /// The temporary directory is removed. (the request, the content, the
    /// storage name)
    AwaitCleanup(Yt, Vec<u8>, String),
    /// The medium is stored. (the request, the storage name)
    AwaitInsert(Yt, String),
    /// Its number is asked for. (the request, the storage name)
    AwaitMid(Yt, String),
}

impl YtStage {
    /// The kind of answer the stage waits for.
    pub open spec fn expects(self) -> Expect {
        match self {
            YtStage::Checking(_, _) => Expect::Flag,
            YtStage::Fetching(f, _) => f.expects(),
            YtStage::AwaitFile(_, _, _) => Expect::Bytes,
            YtStage::AwaitCleanup(_, _, _) => Expect::Done,
            YtStage::AwaitInsert(_, _) => Expect::Done,
            YtStage::AwaitMid(_, _) => Expect::Mid,
        }
    }
}

/// How a video download goes on once the account is known to be logged
/// in: the download starts, or fails at once.
pub open spec fn yt_fetch_begins(tmp: Seq<char>, yt: Yt, r: Step<YtStage, Reply>) -> bool {
    exists|f: Step<Fetch, Fetched>| #[trigger] fetch_begins(tmp, yt.uri, yt.format as int, f) && match f {
        Step::Ask(f2, q) => r == Step::<YtStage, Reply>::Ask(YtStage::Fetching(f2, yt), q),
        Step::Finish(Err(e)) => r == Step::<YtStage, Reply>::Finish(Reply::Failure(e)),
        Step::Finish(Ok(_)) => false,
    }
}

/// The one move of a video download request from `stage` on `a`, under
/// `tmp`.
pub open spec fn yt_moves(tmp: Seq<char>, stage: YtStage, a: Answer, r: Step<YtStage, Reply>) -> bool {
    match stage {
        YtStage::Checking(c, yt) => exists|s: Step<LoggedCheck, Checked>| #[trigger] check_moves(c, a, s) && gate_moves(
            s,
            |c2: LoggedCheck| YtStage::Checking(c2, yt),
            Notice::NotLoggedIn,
            |r2: Step<YtStage, Reply>| yt_fetch_begins(tmp, yt, r2),
            r,
        ),
        YtStage::Fetching(f, yt) => exists|s: Step<Fetch, Fetched>| #[trigger] fetch_moves(tmp, f, a, s) && match s {
            Step::Ask(f2, q) => r == Step::<YtStage, Reply>::Ask(YtStage::Fetching(f2, yt), q),
            Step::Finish(Err(e)) => r == Step::<YtStage, Reply>::Finish(Reply::Failure(e)),
            Step::Finish(Ok((paths, name))) => {
                &&& paths@.len() > 0
                &&& r == Step::<YtStage, Reply>::Ask(YtStage::AwaitFile(yt, name, paths@[0]), Query::ReadFile(paths@[0]))
            },
        },
        YtStage::AwaitFile(yt, name, path) => match a {
            Answer::Bytes(data) => {
                &&& r matches Step::Ask(YtStage::AwaitCleanup(y, d, mname), Query::RemoveDir(dir))
                &&& y == yt
                &&& d == data
                &&& stored_name(mname@, path@)
                &&& dir@ == joined(tmp, name@)
            },
            Answer::Failed(e) => finishes_failing(r, "Failed reading file; Reason: "@ + e@),
            _ => false,
        },
        YtStage::AwaitCleanup(yt, data, mname) => match a {
            Answer::Done | Answer::Failed(_) => r == Step::<YtStage, Reply>::Ask(
                YtStage::AwaitInsert(yt, mname),
                Query::InsertMedia(yt.uid, data, mname, yt.format),
            ),
            _ => false,
        },
        YtStage::AwaitInsert(yt, mname) => passes_failure(a, r) && match a {
            Answer::Done => r == Step::<YtStage, Reply>::Ask(YtStage::AwaitMid(yt, mname), Query::LatestMid),
            Answer::Failed(_) => true,
            _ => false,
        },
        YtStage::AwaitMid(yt, mname) => passes_failure(a, r) && match a {
            Answer::Mid(mid) => {
                &&& r matches Step::Finish(Reply::Stored { mid: m, message, filename })
                &&& m == mid
                &&& message@ == "Successfully downloaded "@ + yt.uri@
                &&& filename == mname
            },
            Answer::Failed(_) => true,
            _ => false,
        },
    }
}

/// Starts a video download request: checks that the account is logged in.
pub fn yt_dl_start(req: Yt) -> (r: (YtStage, Query))
    ensures
        r.0 == YtStage::Checking(LoggedCheck::AwaitExists(Who::Uid(req.uid)), req),
        r.1 == Query::UidExists(req.uid),
{
    let (c, q) = logged_uid_fn(req.uid);
    (YtStage::Checking(c, req), q)
}

/// Moves a video download request on: an account that is not logged in
/// fails with "User is not logged in"; otherwise the video is fetched into
/// a fresh temporary directory, its first file is read, the directory is
/// removed, and the file is stored under the ASCII characters of its name.
pub fn yt_dl_advance(tmp: &String, stage: YtStage, a: Answer) -> (r: Step<YtStage, Reply>)
    requires
        crate::protocol::answer_fits(stage.expects(), a),
    ensures
        yt_moves(tmp@, stage, a, r),
{
    match stage {
        YtStage::Checking(c, yt) => match check_advance(c, a) {
            Step::Ask(c2, q) => Step::Ask(YtStage::Checking(c2, yt), q),
            Step::Finish(Err(e)) => Step::Finish(Reply::Failure(e)),
            Step::Finish(Ok(false)) => refuse(Notice::NotLoggedIn),
            Step::Finish(Ok(true)) => {
                let f = yt_dl(tmp, yt.uri.clone(), yt.format);
                match f {
                    Step::Ask(f2, q) => Step::Ask(YtStage::Fetching(f2, yt), q),
                    Step::Finish(Err(e)) => Step::Finish(Reply::Failure(e)),
                    Step::Finish(Ok(_)) => vstd::pervasive::unreached(),
                }
            },
        },
        YtStage::Fetching(f, yt) => match fetch_advance(tmp, f, a) {
            Step::Ask(f2, q) => Step::Ask(YtStage::Fetching(f2, yt), q),
            Step::Finish(Err(e)) => Step::Finish(Reply::Failure(e)),
            Step::Finish(Ok((paths, name))) => {
                let path = paths[0].clone();
                let q = Query::ReadFile(paths[0].clone());
                Step::Ask(YtStage::AwaitFile(yt, name, path), q)
            },
        },
        YtStage::AwaitFile(yt, name, path) => match a {
            Answer::Bytes(data) => {
                let mname = media_name(path.as_str());
                let dir = join(tmp.as_str(), name.as_str());
                Step::Ask(YtStage::AwaitCleanup(yt, data, mname), Query::RemoveDir(dir))
            },
            Answer::Failed(e) => Step::Finish(Reply::Failure(prefixed("Failed reading file; Reason: ", e.as_str()))),
            _ => vstd::pervasive::unreached(),
        },
        YtStage::AwaitCleanup(yt, data, mname) => {
            let q = Query::InsertMedia(yt.uid, data, mname.clone(), yt.format);
            Step::Ask(YtStage::AwaitInsert(yt, mname), q)
        },
        YtStage::AwaitInsert(yt, mname) => match a {
            Answer::Failed(e) => Step::Finish(Reply::Failure(e)),
            _ => Step::Ask(YtStage::AwaitMid(yt, mname), Query::LatestMid),
        },
        YtStage::AwaitMid(yt, mname) => match a {
            Answer::Mid(mid) => {
                let message = prefixed("Successfully downloaded ", yt.uri.as_str());
                Step::Finish(Reply::Stored { mid, message, filename: mname })
            },
            Answer::Failed(e) => Step::Finish(Reply::Failure(e)),
            _ => vstd::pervasive::unreached(),
        },
    }
}


// ----- convert -----

/// Where an upload conversion request stands.
pub enum ConvertStage {
    /// Is the account logged in? (the check, the request)
    Checking(LoggedCheck, FileUpload),
    /// `ffmpeg` converts the upload. (the conversion, account, format)
    Converting(Convert, i32, i32),
    /// The converted file is read. (account, format, the file's path)
    AwaitFile(i32, i32, String),
    /// The converted file's directory is removed. (account, format,
    /// content, storage name)
    AwaitCleanup(i32, i32, Vec<u8>, String),
    /// The medium is stored. (account, format, storage name)
    AwaitInsert(i32, i32, String),
    /// Its number is asked for. (account, format, storage name)
    AwaitMid(i32, i32, String),
}

impl ConvertStage {
    /// The kind of answer the stage waits for.
    pub open spec fn expects(self) -> Expect {
        match self {
            ConvertStage::Checking(_, _) => Expect::Flag,
            ConvertStage::Converting(c, _, _) => c.expects(),
            ConvertStage::AwaitFile(_, _, _) => Expect::Bytes,
            ConvertStage::AwaitCleanup(_, _, _, _) => Expect::Done,
            ConvertStage::AwaitInsert(_, _, _) => Expect::Done,
            ConvertStage::AwaitMid(_, _, _) => Expect::Mid,
        }
    }

    /// Whether the stage can go on with `a`: an answer of the kind it waits
    /// for, and, where that answer lets the conversion start, an upload
    /// whose stored path and file name are known.
    pub open spec fn takes(self, a: Answer) -> bool {
        &&& crate::protocol::answer_fits(self.expects(), a)
        &&& a == Answer::Flag(true) ==> (self matches ConvertStage::Checking(LoggedCheck::AwaitMark, up)
            ==> up.file_path is Some && up.file_name is Some)
    }
}

/// How an upload conversion goes on once the account is known to be
/// logged in: the conversion starts.
pub open spec fn conversion_begins(tmp: Seq<char>, up: FileUpload, r: Step<ConvertStage, Reply>) -> bool {
    exists|c: (Convert, crate::protocol::Query)| #[trigger] convert_begins(tmp, up.format, up.file_path.unwrap(), up.file_name.unwrap()@, c)
        && r == Step::<ConvertStage, Reply>::Ask(ConvertStage::Converting(c.0, up.uid, up.format), c.1)
}

/// The one move of an upload conversion request from `stage` on `a`, under
/// `tmp`.
pub open spec fn convert_request_moves(tmp: Seq<char>, stage: ConvertStage, a: Answer, r: Step<ConvertStage, Reply>) -> bool {
    match stage {
        ConvertStage::Checking(c, up) => exists|s: Step<LoggedCheck, Checked>| #[trigger] check_moves(c, a, s) && gate_moves(
            s,
            |c2: LoggedCheck| ConvertStage::Checking(c2, up),
            Notice::NotLoggedIn,
            |r2: Step<ConvertStage, Reply>| conversion_begins(tmp, up, r2),
            r,
        ),
        ConvertStage::Converting(cv, uid, format) => exists|s: Step<Convert, Converted>| #[trigger] convert_moves(tmp, cv, a, s) && match s {
            Step::Ask(cv2, q) => r == Step::<ConvertStage, Reply>::Ask(ConvertStage::Converting(cv2, uid, format), q),
            Step::Finish(Err(e)) => r == Step::<ConvertStage, Reply>::Finish(Reply::Failure(e)),
            Step::Finish(Ok(out)) => r == Step::<ConvertStage, Reply>::Ask(ConvertStage::AwaitFile(uid, format, out), Query::ReadFile(out)),
        },
        ConvertStage::AwaitFile(uid, format, path) => match a {
            Answer::Bytes(data) => {
                &&& r matches Step::Ask(ConvertStage::AwaitCleanup(u, f, d, mname), Query::RemoveDir(dir))
                &&& u == uid
                &&& f == format
                &&& d == data
                &&& stored_name(mname@, path@)
                &&& is_parent_of(dir@, path@)
            },
            Answer::Failed(e) => finishes_failing(r, "Failed reading file; Reason: "@ + e@),
            _ => false,
        },
        ConvertStage::AwaitCleanup(uid, format, data, mname) => match a {
            Answer::Done | Answer::Failed(_) => r == Step::<ConvertStage, Reply>::Ask(
                ConvertStage::AwaitInsert(uid, format, mname),
                Query::InsertMedia(uid, data, mname, format),
            ),
            _ => false,
        },
        ConvertStage::AwaitInsert(uid, format, mname) => passes_failure(a, r) && match a {
            Answer::Done => r == Step::<ConvertStage, Reply>::Ask(ConvertStage::AwaitMid(uid, format, mname), Query::LatestMid),
            Answer::Failed(_) => true,
            _ => false,
        },
        ConvertStage::AwaitMid(_, _, mname) => passes_failure(a, r) && match a {
            Answer::Mid(mid) => {
                &&& r matches Step::Finish(Reply::Stored { mid: m, message, filename })
                &&& m == mid
                &&& message@ == "Successfully converted to "@ + mname@
                &&& filename == mname
            },
            Answer::Failed(_) => true,
            _ => false,
        },
    }
}

/// Starts an upload conversion request: checks that the account is logged
/// in.
pub fn convert_request_start(req: FileUpload) -> (r: (ConvertStage, Query))
    ensures
        r.0 == ConvertStage::Checking(LoggedCheck::AwaitExists(Who::Uid(req.uid)), req),
        r.1 == Query::UidExists(req.uid),
{
    let (c, q) = logged_uid_fn(req.uid);
    (ConvertStage::Checking(c, req), q)
}

/// Moves an upload conversion request on: an account that is not logged
/// in fails with "User is not logged in"; otherwise the upload is
/// converted in a fresh temporary directory, the result is read, its
/// directory removed, and it is stored under the ASCII characters of its
/// name.
pub fn convert_request_advance(tmp: &String, stage: ConvertStage, a: Answer) -> (r: Step<ConvertStage, Reply>)
    requires
        stage.takes(a),
    ensures
        convert_request_moves(tmp@, stage, a, r),
{
    match stage {
        ConvertStage::Checking(c, up) => match check_advance(c, a) {
            Step::Ask(c2, q) => Step::Ask(ConvertStage::Checking(c2, up), q),
            Step::Finish(Err(e)) => Step::Finish(Reply::Failure(e)),
            Step::Finish(Ok(false)) => refuse(Notice::NotLoggedIn),
            Step::Finish(Ok(true)) => {
                let uid = up.uid;
                let format = up.format;
                match (up.file_path, up.file_name) {
                    (Some(path), Some(name)) => {
                        let (cv, q) = ffmpeg(tmp, format, path, name.as_str());
                        Step::Ask(ConvertStage::Converting(cv, uid, format), q)
                    },
                    _ => vstd::pervasive::unreached(),
                }
            },
        },
        ConvertStage::Converting(cv, uid, format) => match convert_advance(tmp, cv, a) {
            Step::Ask(cv2, q) => Step::Ask(ConvertStage::Converting(cv2, uid, format), q),
            Step::Finish(Err(e)) => Step::Finish(Reply::Failure(e)),
            Step::Finish(Ok(out)) => {
                let q = Query::ReadFile(out.clone());
                Step::Ask(ConvertStage::AwaitFile(uid, format, out), q)
            },
        },
        ConvertStage::AwaitFile(uid, format, path) => match a {
            Answer::Bytes(data) => {
                let mname = media_name(path.as_str());
                let dir = parent_path(path.as_str());
                Step::Ask(ConvertStage::AwaitCleanup(uid, format, data, mname), Query::RemoveDir(dir))
            },
            Answer::Failed(e) => Step::Finish(Reply::Failure(prefixed("Failed reading file; Reason: ", e.as_str()))),
            _ => vstd::pervasive::unreached(),
        },
        ConvertStage::AwaitCleanup(uid, format, data, mname) => {
            let q = Query::InsertMedia(uid, data, mname.clone(), format);
            Step::Ask(ConvertStage::AwaitInsert(uid, format, mname), q)
        },
        ConvertStage::AwaitInsert(uid, format, mname) => match a {
            Answer::Failed(e) => Step::Finish(Reply::Failure(e)),
            _ => Step::Ask(ConvertStage::AwaitMid(uid, format, mname), Query::LatestMid),
        },
        ConvertStage::AwaitMid(_, _, mname) => match a {
            Answer::Mid(mid) => {
                let message = prefixed("Successfully converted to ", mname.as_str());
                Step::Finish(Reply::Stored { mid, message, filename: mname })
            },
            Answer::Failed(e) => Step::Finish(Reply::Failure(e)),
            _ => vstd::pervasive::unreached(),
        },
    }
}

} // verus!
