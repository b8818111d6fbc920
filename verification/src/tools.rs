//! Fetching a video with `yt-dlp` and converting an upload with `ffmpeg`,
//! each in a fresh temporary directory.

use vstd::prelude::*;
use crate::media::{
    converted_path, ffmpeg_args, ffmpeg_plan, join, joined, known_format, save_location,
    save_option, views, yt_dl_options, yt_options,
};
use crate::naming::{fresh_for, tmp_advance, tmp_moves, create_tmp_name, TmpName, Named};
use crate::protocol::{prefixed, Answer, Expect, Notice, Query, Step};
use crate::text::{is_stem_of, strip_extension};

verus! {

/// Where a download stands.
pub enum Fetch {
    /// A temporary name is being chosen; the options and the address wait.
    Naming(TmpName, Vec<String>, String),
    /// `yt-dlp` runs into the directory of this name.
    AwaitRun(String),
    /// The files of the directory of this name are listed.
    AwaitFiles(String),
}

/// What a download ends with: the paths of the downloaded files and the
/// name of their temporary directory, or the failure message.
pub type Fetched = Result<(Vec<String>, String), String>;

impl Fetch {
    /// The kind of answer the stage waits for.
    pub open spec fn expects(self) -> Expect {
        match self {
            Fetch::Naming(t, _, _) => t.expects(),
            Fetch::AwaitRun(_) => Expect::Done,
            Fetch::AwaitFiles(_) => Expect::SomeNames,
        }
    }
}

/// A failed choice of a temporary name, as reported.
pub open spec fn tmp_failure(e: Seq<char>) -> Seq<char> {
    "Failed to create tmp name "@ + e
}

/// How a download starts for `format` and `uri` under `tmp`.
pub open spec fn fetch_begins(tmp: Seq<char>, uri: String, format: int, r: Step<Fetch, Fetched>) -> bool {
    if known_format(format) {
        &&& r matches Step::Ask(Fetch::Naming(t, opts, u), q)
        &&& views(opts@) == yt_options(format)
        &&& u == uri
        &&& t matches TmpName::AwaitFolder(d)
        &&& d@ == tmp
        &&& q matches Query::MakeDir(p)
        &&& p@ == tmp
    } else {
        r matches Step::Finish(Err(m)) && m@ == Notice::InvalidFormat.words()
    }
}

/// The one move of a download from `stage` on `a`, under `tmp`.
pub open spec fn fetch_moves(tmp: Seq<char>, stage: Fetch, a: Answer, r: Step<Fetch, Fetched>) -> bool {
    match stage {
        Fetch::Naming(t, opts, uri) => exists|s: Step<TmpName, Named>| #[trigger] tmp_moves(t, a, s) && match s {
            Step::Ask(t2, q) => r == Step::<Fetch, Fetched>::Ask(Fetch::Naming(t2, opts, uri), q),
            Step::Finish(Err(e)) => r matches Step::Finish(Err(m)) && m@ == tmp_failure(e@),
            Step::Finish(Ok(name)) => {
                &&& r matches Step::Ask(Fetch::AwaitRun(n), Query::RunYtDlp(o, u, loc))
                &&& n == name
                &&& o == opts
                &&& u == uri
                &&& loc@ == save_location(tmp, name@)
            },
        },
        Fetch::AwaitRun(name) => match a {
            Answer::Done => {
                &&& r matches Step::Ask(Fetch::AwaitFiles(n), Query::ListPaths(p))
                &&& n == name
                &&& p@ == joined(tmp, name@)
            },
            Answer::Failed(_) => r matches Step::Finish(Err(m)) && m@ == Notice::DownloadFailed.words(),
            _ => false,
        },
        Fetch::AwaitFiles(name) => match a {
            Answer::Names(paths) => r == Step::<Fetch, Fetched>::Finish(Ok((paths, name))),
            _ => false,
        },
    }
}

/// Starts downloading `uri` in `format` under `tmp`: an unknown format
/// fails with "Supplied invalid format" before anything is touched.
pub fn yt_dl(tmp: &String, uri: String, format: i32) -> (r: Step<Fetch, Fetched>)
    ensures
        fetch_begins(tmp@, uri, format as int, r),
{
    match yt_dl_options(format) {
        None => Step::Finish(Err(Notice::InvalidFormat.text())),
        Some(opts) => {
            let (t, q) = create_tmp_name(tmp.clone());
            Step::Ask(Fetch::Naming(t, opts, uri), q)
        },
    }
}

/// Moves a download on: a fresh temporary directory is named, `yt-dlp`
/// saves into it, and its files are listed.
pub fn fetch_advance(tmp: &String, stage: Fetch, a: Answer) -> (r: Step<Fetch, Fetched>)
    requires
        crate::protocol::answer_fits(stage.expects(), a),
    ensures
        fetch_moves(tmp@, stage, a, r),
{
    match stage {
        Fetch::Naming(t, opts, uri) => {
            let s = tmp_advance(t, a);
            match s {
                Step::Ask(t2, q) => Step::Ask(Fetch::Naming(t2, opts, uri), q),
                Step::Finish(Err(e)) => Step::Finish(Err(prefixed("Failed to create tmp name ", e.as_str()))),
                Step::Finish(Ok(name)) => {
                    let loc = save_option(tmp.as_str(), name.as_str());
                    Step::Ask(Fetch::AwaitRun(name), Query::RunYtDlp(opts, uri, loc))
                },
            }
        },
        Fetch::AwaitRun(name) => match a {
            Answer::Done => {
                let p = join(tmp.as_str(), name.as_str());
                Step::Ask(Fetch::AwaitFiles(name), Query::ListPaths(p))
            },
            _ => Step::Finish(Err(Notice::DownloadFailed.text())),
        },
        Fetch::AwaitFiles(name) => match a {
            Answer::Names(paths) => Step::Finish(Ok((paths, name))),
            _ => vstd::pervasive::unreached(),
        },
    }
}


/// Where a conversion stands.
pub enum Convert {
    /// A temporary name is being chosen; format, input path and output
    /// stem wait.
    Naming(TmpName, i32, String, String),
    /// The output directory is being created: directory, format, input
    /// path, output stem.
    AwaitDir(String, i32, String, String),
    /// `ffmpeg` runs: output directory, output path.
    AwaitRun(String, String),
    /// The output directory of a failed run is being removed.
    AwaitCleanup,
}

/// What a conversion ends with: the path of the converted file, or the
/// failure message.
pub type Converted = Result<String, String>;

impl Convert {
    /// The kind of answer the stage waits for.
    pub open spec fn expects(self) -> Expect {
        match self {
            Convert::Naming(t, _, _, _) => t.expects(),
            _ => Expect::Done,
        }
    }
}

/// How a conversion of the input `input`, uploaded as `file_name`, to
/// `format` starts under `tmp`.
pub open spec fn convert_begins(tmp: Seq<char>, format: i32, input: String, file_name: Seq<char>, r: (Convert, Query)) -> bool {
    &&& r.0 matches Convert::Naming(t, f, i, stem)
    &&& t matches TmpName::AwaitFolder(d)
    &&& d@ == tmp
    &&& f == format
    &&& i == input
    &&& is_stem_of(stem@, file_name)
    &&& r.1 matches Query::MakeDir(p)
    &&& p@ == tmp
}

/// The one move of a conversion from `stage` on `a`, under `tmp`.
pub open spec fn convert_moves(tmp: Seq<char>, stage: Convert, a: Answer, r: Step<Convert, Converted>) -> bool {
    match stage {
        Convert::Naming(t, format, input, stem) => exists|s: Step<TmpName, Named>| #[trigger] tmp_moves(t, a, s) && match s {
            Step::Ask(t2, q) => r == Step::<Convert, Converted>::Ask(Convert::Naming(t2, format, input, stem), q),
            Step::Finish(Err(e)) => r matches Step::Finish(Err(m)) && m@ == tmp_failure(e@),
            Step::Finish(Ok(name)) => {
                &&& r matches Step::Ask(Convert::AwaitDir(dir, f, i, st), Query::MakeDir(p))
                &&& dir@ == joined(tmp, name@)
                &&& p@ == dir@
                &&& f == format
                &&& i == input
                &&& st == stem
            },
        },
        Convert::AwaitDir(dir, format, input, stem) => match a {
            Answer::Failed(e) => r matches Step::Finish(Err(m)) && m@ == "Failed creating tmp folder; Reason: "@ + e@,
            Answer::Done => if known_format(format as int) {
                &&& r matches Step::Ask(Convert::AwaitRun(d, out), Query::RunFfmpeg(args))
                &&& d == dir
                &&& out@ == converted_path(dir@, stem@, format as int)
                &&& views(args@) == ffmpeg_args(input@, format as int, out@)
            } else {
                r matches Step::Finish(Err(m)) && m@ == Notice::InvalidFormat.words()
            },
            _ => false,
        },
        Convert::AwaitRun(dir, out) => match a {
            Answer::Done => r == Step::<Convert, Converted>::Finish(Ok(out)),
            Answer::Failed(_) => r == Step::<Convert, Converted>::Ask(Convert::AwaitCleanup, Query::RemoveDir(dir)),
            _ => false,
        },
        Convert::AwaitCleanup => match a {
            Answer::Done | Answer::Failed(_) => r matches Step::Finish(Err(m)) && m@ == Notice::ConversionFailed.words(),
            _ => false,
        },
    }
}

/// Starts converting the upload stored at `input` and named `file_name`
/// by its sender to `format` under `tmp`: the output is named after the
/// upload's name without its extension (what follows its last `'.'`).
pub fn ffmpeg(tmp: &String, format: i32, input: String, file_name: &str) -> (r: (Convert, Query))
    ensures
        convert_begins(tmp@, format, input, file_name@, r),
{
    let stem = strip_extension(file_name);
    let (t, q) = create_tmp_name(tmp.clone());
    (Convert::Naming(t, format, input, stem), q)
}

/// Moves a conversion on: a fresh directory is named and created, the
/// format is checked, `ffmpeg` runs, and the directory of a failed run is
/// removed before the failure is reported.
pub fn convert_advance(tmp: &String, stage: Convert, a: Answer) -> (r: Step<Convert, Converted>)
    requires
        crate::protocol::answer_fits(stage.expects(), a),
    ensures
        convert_moves(tmp@, stage, a, r),
{
    match stage {
        Convert::Naming(t, format, input, stem) => {
            let s = tmp_advance(t, a);
            match s {
                Step::Ask(t2, q) => Step::Ask(Convert::Naming(t2, format, input, stem), q),
                Step::Finish(Err(e)) => Step::Finish(Err(prefixed("Failed to create tmp name ", e.as_str()))),
                Step::Finish(Ok(name)) => {
                    let dir = join(tmp.as_str(), name.as_str());
                    let q = Query::MakeDir(dir.clone());
                    Step::Ask(Convert::AwaitDir(dir, format, input, stem), q)
                },
            }
        },
        Convert::AwaitDir(dir, format, input, stem) => match a {
            Answer::Failed(e) => Step::Finish(Err(prefixed("Failed creating tmp folder; Reason: ", e.as_str()))),
            _ => match ffmpeg_plan(format, input.as_str(), dir.as_str(), stem.as_str()) {
                None => Step::Finish(Err(Notice::InvalidFormat.text())),
                Some((args, out)) => Step::Ask(Convert::AwaitRun(dir, out), Query::RunFfmpeg(args)),
            },
        },
        Convert::AwaitRun(dir, out) => match a {
            Answer::Done => Step::Finish(Ok(out)),
            _ => Step::Ask(Convert::AwaitCleanup, Query::RemoveDir(dir)),
        },
        Convert::AwaitCleanup => Step::Finish(Err(Notice::ConversionFailed.text())),
    }
}

} // verus!
