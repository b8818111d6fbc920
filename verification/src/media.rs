//! The media formats and how the external tools are asked for them.

use vstd::prelude::*;
use crate::protocol::prefixed;
use crate::text::{is_last_component_of, is_stem_of, lemma_last_component_after_last_slash, lemma_stem_drops_extension};

verus! {

/// The texts of a list of strings.
pub open spec fn views(v: Seq<String>) -> Seq<Seq<char>> {
    v.map_values(|s: String| s@)
}

/// A format number that the service knows: 1 audio only, 2 video only,
/// 3 audio and video.
pub open spec fn known_format(format: int) -> bool {
    1 <= format <= 3
}

/// The `yt-dlp` options for a format.
pub open spec fn yt_options(format: int) -> Seq<Seq<char>> {
    if format == 1 {
        seq!["-x"@, "--audio-format"@, "mp3"@, "--audio-quality"@, "0"@]
    } else if format == 2 {
        seq!["-f \"bv[ext=mp4]/best[ext=mp4]/best"@]
    } else {
        seq!["-f \"bv[ext=mp4]+ba[ext=m4a]/best[ext=mp4]/best"@]
    }
}

/// The `yt-dlp` options for `format`, or `None` for a format that the
/// service does not know.
pub fn yt_dl_options(format: i32) -> (r: Option<Vec<String>>)
    ensures
        r is Some <==> known_format(format as int),
        r matches Some(v) ==> views(v@) == yt_options(format as int),
{
    let mut v: Vec<String> = Vec::new();
    if format == 1 {
        v.push(String::from_str("-x"));
        v.push(String::from_str("--audio-format"));
        v.push(String::from_str("mp3"));
        v.push(String::from_str("--audio-quality"));
        v.push(String::from_str("0"));
    } else if format == 2 {
        v.push(String::from_str("-f \"bv[ext=mp4]/best[ext=mp4]/best"));
    } else if format == 3 {
        v.push(String::from_str("-f \"bv[ext=mp4]+ba[ext=m4a]/best[ext=mp4]/best"));
    } else {
        return None;
    }
    proof {
        assert(views(v@) =~= yt_options(format as int));
    }
    Some(v)
}

/// Where `yt-dlp` saves a download: under the directory `name` of `tmp`,
/// named after the title and the extension.
pub open spec fn save_location(tmp: Seq<char>, name: Seq<char>) -> Seq<char> {
    "-o"@ + tmp + "/"@ + name + "/%(title)s.%(ext)s"@
}

/// The `yt-dlp` output option for a download into the directory `name` of
/// `tmp`.
pub fn save_option(tmp: &str, name: &str) -> (s: String)
    ensures
        s@ == save_location(tmp@, name@),
{
    let mut s = prefixed("-o", tmp);
    s.append("/");
    s.append(name);
    s.append("/%(title)s.%(ext)s");
    s
}

/// `dir` followed by `/` and `name`.
pub open spec fn joined(dir: Seq<char>, name: Seq<char>) -> Seq<char> {
    dir + "/"@ + name
}

/// The path of the entry `name` of the directory `dir`.
pub fn join(dir: &str, name: &str) -> (s: String)
    ensures
        s@ == joined(dir@, name@),
{
    let mut s = prefixed(dir, "/");
    s.append(name);
    s
}

/// The file extension that a conversion to `format` produces.
pub open spec fn extension(format: int) -> Seq<char> {
    if format == 1 { ".mp3"@ } else { ".mp4"@ }
}

/// Where the conversion of `stem` to `format` is written in `dir`.
pub open spec fn converted_path(dir: Seq<char>, stem: Seq<char>, format: int) -> Seq<char> {
    dir + "/"@ + stem + extension(format)
}

/// The `ffmpeg` arguments that convert `input` to `format`, writing `out`:
/// audio only as MP3, video only without its audio track as MP4, both as
/// MP4.
pub open spec fn ffmpeg_args(input: Seq<char>, format: int, out: Seq<char>) -> Seq<Seq<char>> {
    if format == 2 {
        seq!["-i"@, input, "-an"@, out]
    } else {
        seq!["-i"@, input, out]
    }
}

/// The `ffmpeg` arguments and the output path for converting `input` to
/// `format` in the directory `dir`, the output named after `stem`; `None`
/// for a format that the service does not know.
pub fn ffmpeg_plan(format: i32, input: &str, dir: &str, stem: &str) -> (r: Option<(Vec<String>, String)>)
    ensures
        r is Some <==> known_format(format as int),
        r matches Some(p) ==> {
            &&& p.1@ == converted_path(dir@, stem@, format as int)
            &&& views(p.0@) == ffmpeg_args(input@, format as int, p.1@)
        },
{
    if !(1 <= format && format <= 3) {
        return None;
    }
    let mut out = join(dir, stem);
    if format == 1 {
        out.append(".mp3");
    } else {
        out.append(".mp4");
    }
    let mut args: Vec<String> = Vec::new();
    args.push(String::from_str("-i"));
    args.push(String::from_str(input));
    if format == 2 {
        args.push(String::from_str("-an"));
    }
    args.push(out.clone());
    proof {
        assert(views(args@) =~= ffmpeg_args(input@, format as int, out@));
    }
    Some((args, out))
}

/// The file that a conversion writes is named after the upload's stem
/// followed by the format's extension, and cutting that extension off
/// gives the stem back.
pub proof fn lemma_converted_file_name(dir: Seq<char>, stem: Seq<char>, format: int, last: Seq<char>, back: Seq<char>)
    requires
        !stem.contains('/'),
        is_last_component_of(last, converted_path(dir, stem, format)),
        is_stem_of(back, last),
    ensures
        last == stem + extension(format),
        back == stem,
{
    reveal_strlit("/");
    reveal_strlit(".mp3");
    reveal_strlit(".mp4");
    let ext = extension(format);
    let name = stem + ext;
    let path = converted_path(dir, stem, format);
    assert(path =~= (dir + "/"@) + name);
    assert(!name.contains('/')) by {
        if name.contains('/') {
            let j = choose|j: int| 0 <= j < name.len() && name[j] == '/';
            if j < stem.len() {
                assert(stem[j] == '/');
            }
        }
    }
    assert(name =~= path.skip(path.len() - name.len()));
    assert(path[path.len() - name.len() - 1] == '/');
    lemma_last_component_after_last_slash(name, last, path);
    assert(name[stem.len() as int] == '.');
    assert(name.take(stem.len() as int) =~= stem);
    let tail = name.skip(stem.len() + 1int);
    assert(!tail.contains('.')) by {
        if tail.contains('.') {
            let j = choose|j: int| 0 <= j < tail.len() && #[trigger] tail[j] == '.';
            assert(tail[j] == ext[j + 1]);
        }
    }
    assert(is_stem_of(stem, name));
    lemma_stem_drops_extension(stem, back, name);
}

} // verus!
