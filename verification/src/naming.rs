//! Fresh names for temporary directories.

use vstd::prelude::*;
use rand::distributions::{Alphanumeric, DistString};
use crate::protocol::{prefixed, Answer, Expect, Query, Step};

verus! {

/// How many characters a temporary name has.
pub const NAME_LEN: usize = 16;

/// An ASCII letter or digit.
pub open spec fn is_alphanumeric(c: char) -> bool {
    ||| 48 <= (c as u32) <= 57
    ||| 65 <= (c as u32) <= 90
    ||| 97 <= (c as u32) <= 122
}

/// `name` could be drawn as a temporary name: 16 ASCII letters and digits.
pub open spec fn possible_name(name: Seq<char>) -> bool {
    &&& name.len() == NAME_LEN
    &&& forall|i: int| 0 <= i < name.len() ==> is_alphanumeric(#[trigger] name[i])
}

/// `name` is a possible temporary name that none of `taken` already has.
pub open spec fn fresh_for(name: Seq<char>, taken: Seq<String>) -> bool {
    &&& possible_name(name)
    &&& forall|i: int| 0 <= i < taken.len() ==> (#[trigger] taken[i])@ != name
}

/// One of `taken` is a name that could be drawn, so that a draw may hit it.
pub open spec fn may_collide(taken: Seq<String>) -> bool {
    exists|i: int| 0 <= i < taken.len() && possible_name((#[trigger] taken[i])@)
}

/// `rand`'s `Alphanumeric.sample_string(&mut thread_rng(), len)`: a string
/// of `len` characters, each drawn from the ASCII letters and digits. Which
/// characters come out is left open: it is chance.
#[verifier::external_body]
fn random_alphanumeric(len: usize) -> (s: String)
    ensures
        s@.len() == len,
        forall|i: int| 0 <= i < len ==> is_alphanumeric(#[trigger] s@[i]),
{
    Alphanumeric.sample_string(&mut rand::thread_rng(), len)
}

/// Whether one of `names` is `name`.
pub fn is_taken(names: &Vec<String>, name: &String) -> (b: bool)
    ensures
        b == exists|i: int| 0 <= i < names@.len() && (#[trigger] names@[i])@ == name@,
{
    let mut j: usize = 0;
    while j < names.len()
        invariant
            j <= names@.len(),
            forall|i: int| 0 <= i < j ==> (#[trigger] names@[i])@ != name@,
        decreases names@.len() - j,
    {
        if names[j] == *name {
            return true;
        }
        j = j + 1;
    }
    false
}

/// Keeps a drawn name if none of `taken` already has it.
pub fn pick(taken: &Vec<String>, candidate: String) -> (r: Option<String>)
    ensures
        r is Some <==> !exists|i: int| 0 <= i < taken@.len() && (#[trigger] taken@[i])@ == candidate@,
        r matches Some(n) ==> n == candidate,
{
    if is_taken(taken, &candidate) {
        None
    } else {
        Some(candidate)
    }
}

/// Draws one random name of 16 letters and digits and keeps it if none of
/// `taken` has it. A name is always kept when none of `taken` could have
/// been drawn.
pub fn draw_name(taken: &Vec<String>) -> (r: Option<String>)
    ensures
        r matches Some(n) ==> fresh_for(n@, taken@),
        r is None ==> may_collide(taken@),
{
    let candidate = random_alphanumeric(NAME_LEN);
    let ghost c = candidate@;
    let r = pick(taken, candidate);
    proof {
        if r is None {
            let i = choose|i: int| 0 <= i < taken@.len() && (#[trigger] taken@[i])@ == c;
            assert(possible_name(taken@[i]@));
        }
    }
    r
}

/// Where the choice of a temporary name stands.
pub enum TmpName {
    /// The temporary directory is being created.
    AwaitFolder(String),
    /// The entries of the temporary directory are listed.
    AwaitListing,
    /// The last drawn name was among these entries; another is drawn.
    Drawing(Vec<String>),
}

/// What the choice of a temporary name ends with: the name, or the failure
/// message.
pub type Named = Result<String, String>;

impl TmpName {
    /// The kind of answer the stage waits for.
    pub open spec fn expects(self) -> Expect {
        match self {
            TmpName::AwaitFolder(_) => Expect::Done,
            TmpName::AwaitListing => Expect::Names,
            TmpName::Drawing(_) => Expect::Proceed,
        }
    }
}

/// A draw against the entries `taken`: a fresh name ends the choice; a
/// taken one, which is possible only when some entry could have been
/// drawn, hands control back to draw again against the same entries.
pub open spec fn draws(taken: Vec<String>, r: Step<TmpName, Named>) -> bool {
    ||| r matches Step::Finish(Ok(n)) && fresh_for(n@, taken@)
    ||| may_collide(taken@) && r == Step::<TmpName, Named>::Ask(TmpName::Drawing(taken), Query::DrawAgain)
}

/// Draws a name against `taken`.
fn draw_against(taken: Vec<String>) -> (r: Step<TmpName, Named>)
    ensures
        draws(taken, r),
{
    match draw_name(&taken) {
        Some(n) => Step::Finish(Ok(n)),
        None => Step::Ask(TmpName::Drawing(taken), Query::DrawAgain),
    }
}

/// The one move of the choice of a temporary name from `stage` on `a`.
pub open spec fn tmp_moves(stage: TmpName, a: Answer, r: Step<TmpName, Named>) -> bool {
    match stage {
        TmpName::AwaitFolder(dir) => match a {
            Answer::Done => r matches Step::Ask(TmpName::AwaitListing, Query::ListNames(p)) && p@ == dir@ + "/"@,
            Answer::Failed(e) => r matches Step::Finish(Err(m)) && m@ == "Failed creating tmp folder; Reason: "@ + e@,
            _ => false,
        },
        TmpName::AwaitListing => match a {
            Answer::Names(taken) => draws(taken, r),
            Answer::Failed(e) => r matches Step::Finish(Err(m)) && m@ == "Failed to read tmp dir; Reason: "@ + e@,
            _ => false,
        },
        TmpName::Drawing(taken) => match a {
            Answer::Done => draws(taken, r),
            _ => false,
        },
    }
}

/// Starts choosing a temporary name under `dir`: creates `dir` first.
pub fn create_tmp_name(dir: String) -> (r: (TmpName, Query))
    ensures
        r.0 == TmpName::AwaitFolder(dir),
        r.1 == Query::MakeDir(dir),
{
    let q = Query::MakeDir(dir.clone());
    (TmpName::AwaitFolder(dir), q)
}

/// Moves the choice of a temporary name on: once the directory exists its
/// entries are listed once and names are drawn against them until one is
/// not among them; each taken draw hands control back before the next.
pub fn tmp_advance(stage: TmpName, a: Answer) -> (r: Step<TmpName, Named>)
    requires
        crate::protocol::answer_fits(stage.expects(), a),
    ensures
        tmp_moves(stage, a, r),
{
    match stage {
        TmpName::AwaitFolder(dir) => match a {
            Answer::Failed(e) => Step::Finish(Err(prefixed("Failed creating tmp folder; Reason: ", e.as_str()))),
            _ => Step::Ask(TmpName::AwaitListing, Query::ListNames(prefixed(dir.as_str(), "/"))),
        },
        TmpName::AwaitListing => match a {
            Answer::Names(taken) => draw_against(taken),
            Answer::Failed(e) => Step::Finish(Err(prefixed("Failed to read tmp dir; Reason: ", e.as_str()))),
            _ => vstd::pervasive::unreached(),
        },
        TmpName::Drawing(taken) => draw_against(taken),
    }
}

} // verus!
