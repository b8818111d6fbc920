//! What holds of every request handled: each is answered after a bounded
//! number of pieces of outside work, a login or a password change goes
//! through only with the right password, and the media requests touch
//! nothing before the account is known to be logged in.

use vstd::prelude::*;
use crate::accounts::{add_moves, chpwd_moves, login_moves, AddStage, ChpwdStage, LoginStage, LogoutStage};
use crate::checks::LoggedCheck;
use crate::flow::{begins, moves, Flow, Request};
use crate::structs::{Chpwd, Login, User};
use crate::library::{ConvertStage, DownloadStage, ListStage, YtStage};
use crate::naming::TmpName;
use crate::protocol::{answers_to, Action, Answer, Expect, Query, Reply, Step};
use crate::tools::{Convert, Fetch};

verus! {

/// How many more pieces of outside work a logged-in check may ask for.
pub open spec fn check_rank(s: LoggedCheck) -> nat {
    match s {
        LoggedCheck::AwaitExists(_) => 2,
        LoggedCheck::AwaitMark => 1,
    }
}

/// How many more pieces of outside work the naming of a temporary
/// directory may ask for.
pub open spec fn tmp_rank(s: TmpName) -> nat {
    match s {
        TmpName::AwaitFolder(_) => 2,
        TmpName::AwaitListing => 1,
        TmpName::Drawing(_) => 1,
    }
}

/// How many more pieces of outside work a download may ask for.
pub open spec fn fetch_rank(s: Fetch) -> nat {
    match s {
        Fetch::Naming(t, _, _) => tmp_rank(t) + 2,
        Fetch::AwaitRun(_) => 2,
        Fetch::AwaitFiles(_) => 1,
    }
}

/// How many more pieces of outside work a conversion may ask for.
pub open spec fn convert_rank(s: Convert) -> nat {
    match s {
        Convert::Naming(t, _, _, _) => tmp_rank(t) + 3,
        Convert::AwaitDir(_, _, _, _) => 3,
        Convert::AwaitRun(_, _) => 2,
        Convert::AwaitCleanup => 1,
    }
}

/// How many more pieces of outside work the handler of a request may ask
/// for before it answers.
pub open spec fn rank(f: Flow) -> nat {
    match f {
        Flow::Login(s) => match s {
            LoginStage::AwaitName(_) => 3,
            LoginStage::AwaitAccount(_) => 2,
            LoginStage::AwaitMark(_, _) => 1,
        },
        Flow::Logout(s) => match s {
            LogoutStage::AwaitName(_) => 2,
            LogoutStage::AwaitMark => 1,
        },
        Flow::Logged(c) => check_rank(c),
        Flow::Add(s) => match s {
            AddStage::AwaitName(_) => 4,
            AddStage::AwaitEmail(_) => 3,
            AddStage::AwaitInsert(_) => 2,
            AddStage::AwaitAccount => 1,
        },
        Flow::Check => 1,
        Flow::Chpwd(s) => match s {
            ChpwdStage::AwaitName(_) => 3,
            ChpwdStage::AwaitAccount(_) => 2,
            ChpwdStage::AwaitUpdate => 1,
        },
        Flow::Medialist(s) => match s {
            ListStage::AwaitUser(_) => 2,
            ListStage::AwaitMedia => 1,
        },
        Flow::Download(s) => match s {
            DownloadStage::Checking(c, _) => check_rank(c) + 1,
            DownloadStage::AwaitMedia => 1,
        },
        Flow::YtDl(s) => match s {
            YtStage::Checking(c, _) => check_rank(c) + 8,
            YtStage::Fetching(f, _) => fetch_rank(f) + 4,
            YtStage::AwaitFile(_, _, _) => 4,
            YtStage::AwaitCleanup(_, _, _) => 3,
            YtStage::AwaitInsert(_, _) => 2,
            YtStage::AwaitMid(_, _) => 1,
        },
        Flow::Convert(s) => match s {
            ConvertStage::Checking(c, _) => check_rank(c) + 9,
            ConvertStage::Converting(c, _, _) => convert_rank(c) + 4,
            ConvertStage::AwaitFile(_, _, _) => 4,
            ConvertStage::AwaitCleanup(_, _, _, _) => 3,
            ConvertStage::AwaitInsert(_, _, _) => 2,
            ConvertStage::AwaitMid(_, _, _) => 1,
        },
        Flow::Finished => 0,
    }
}

/// A move that draws a temporary name again because the one drawn was
/// among the directory's entries.
pub open spec fn redraws(flow: Flow, a: Answer, out: (Flow, Action)) -> bool {
    &&& flow.expects() == Expect::Names || flow.expects() == Expect::Proceed
    &&& out.1 == Action::Perform(Query::DrawAgain)
    &&& rank(out.0) == rank(flow)
}

/// Every request is answered: each move either asks for outside work and
/// gets strictly closer to the reply, or replies and finishes. The one
/// exception is drawing a temporary name again after a drawn name was
/// taken, which stays where it was.
pub proof fn lemma_progress(tmp: Seq<char>, flow: Flow, a: Answer, out: (Flow, Action))
    requires
        moves(tmp, flow, a, out),
    ensures
        out.1 is Perform ==> rank(out.0) < rank(flow) || redraws(flow, a, out),
        out.1 is Respond ==> out.0 is Finished,
{
}

/// No request needs more than eleven pieces of outside work before it is
/// answered, besides the new draws after a drawn temporary name was taken.
pub proof fn lemma_bounded(req: Request, out: (Flow, Action))
    requires
        begins(req, out),
    ensures
        out.1 is Perform,
        rank(out.0) <= 11,
{
}


/// A login marks an account as logged in, and answers its number and
/// name, only when the stored password is the one the request gave.
pub proof fn lemma_login_needs_password(s: LoginStage, a: Answer, r: Step<LoginStage, Reply>)
    requires
        s.inv(),
        login_moves(s, a, r),
    ensures
        r matches Step::Ask(s2, _) ==> s2.inv(),
        r matches Step::Ask(_, Query::SetLogged(_, true)) ==> {
            &&& s matches LoginStage::AwaitAccount(req)
            &&& a matches Answer::Account(Some(row))
            &&& row.password@ == req.password@
        },
        r matches Step::Finish(Reply::Account { .. }) ==> {
            &&& s matches LoginStage::AwaitMark(req, row)
            &&& row.password@ == req.password@
        },
{
}

/// A login starts in a stage that keeps its invariant.
pub proof fn lemma_login_starts_well(req: crate::structs::Login)
    ensures
        LoginStage::AwaitName(req).inv(),
{
}

/// A password change stores a new password only when the stored one is
/// the current password the request gave, and only the one it asked for.
pub proof fn lemma_chpwd_needs_password(s: ChpwdStage, a: Answer, r: Step<ChpwdStage, Reply>)
    requires
        chpwd_moves(s, a, r),
    ensures
        r matches Step::Ask(_, Query::SetPassword(name, pwd)) ==> {
            &&& s matches ChpwdStage::AwaitAccount(req)
            &&& a matches Answer::Account(Some(row))
            &&& row.password@ == req.oldpwd@
            &&& name == req.username
            &&& pwd == req.newpwd
        },
{
}

/// A password change with the right current password always goes
/// through, whatever the new password: the stored row's password being
/// the current one given leads to storing the new one, and storing it to
/// "Changed password successfully!".
pub proof fn lemma_chpwd_right_password_goes_through(req: Chpwd, row: Login, r: Step<ChpwdStage, Reply>, r2: Step<ChpwdStage, Reply>)
    requires
        row.password@ == req.oldpwd@,
        chpwd_moves(ChpwdStage::AwaitAccount(req), Answer::Account(Some(row)), r),
        chpwd_moves(ChpwdStage::AwaitUpdate, Answer::Done, r2),
    ensures
        r == Step::<ChpwdStage, Reply>::Ask(ChpwdStage::AwaitUpdate, Query::SetPassword(req.username, req.newpwd)),
        r2 matches Step::Finish(Reply::Note(m)) && m@ == "Changed password successfully!"@,
{
}

/// A sign-up whose name and e-mail address are free always goes on to
/// store the account as given, whatever its password, and answers with the
/// stored row's number and name.
pub proof fn lemma_add_free_goes_through(
    user: User,
    row: Login,
    r1: Step<AddStage, Reply>,
    r2: Step<AddStage, Reply>,
    r3: Step<AddStage, Reply>,
    r4: Step<AddStage, Reply>,
)
    requires
        add_moves(AddStage::AwaitName(user), Answer::Flag(false), r1),
        add_moves(AddStage::AwaitEmail(user), Answer::Flag(false), r2),
        add_moves(AddStage::AwaitInsert(user.username), Answer::Done, r3),
        add_moves(AddStage::AwaitAccount, Answer::Account(Some(row)), r4),
    ensures
        r1 == Step::<AddStage, Reply>::Ask(AddStage::AwaitEmail(user), Query::EmailExists(user.email)),
        r2 == Step::<AddStage, Reply>::Ask(AddStage::AwaitInsert(user.username), Query::InsertUser(user)),
        r3 == Step::<AddStage, Reply>::Ask(AddStage::AwaitAccount, Query::FetchAccount(user.username)),
        r4 == Step::<AddStage, Reply>::Finish(Reply::Account { id: row.id, username: row.username }),
{
}

/// A logged-in check of an account by its number.
pub open spec fn by_uid(c: LoggedCheck) -> bool {
    c matches LoggedCheck::AwaitExists(w) ==> w is Uid
}

/// A sign-up stores an account only after the database said that neither
/// its name nor its e-mail address is taken, and it asks about the e-mail
/// address only once the name is known to be free.
pub proof fn lemma_add_stores_only_free_accounts(s: AddStage, a: Answer, r: Step<AddStage, Reply>)
    requires
        add_moves(s, a, r),
    ensures
        r matches Step::Ask(_, Query::InsertUser(u)) ==> {
            &&& s == AddStage::AwaitEmail(u)
            &&& a == Answer::Flag(false)
        },
        r matches Step::Ask(AddStage::AwaitEmail(u), _) ==> {
            &&& s == AddStage::AwaitName(u)
            &&& a == Answer::Flag(false)
        },
{
}

/// A media request that has not yet seen its account's logged-in mark.
pub open spec fn gated(f: Flow) -> bool {
    ||| f matches Flow::Download(DownloadStage::Checking(_, _))
    ||| f matches Flow::YtDl(YtStage::Checking(_, _))
    ||| f matches Flow::Convert(ConvertStage::Checking(_, _))
}

/// The logged-in check of a media request goes by the account's number.
pub open spec fn checks_by_uid(f: Flow) -> bool {
    &&& f matches Flow::Download(DownloadStage::Checking(c, _)) ==> by_uid(c)
    &&& f matches Flow::YtDl(YtStage::Checking(c, _)) ==> by_uid(c)
    &&& f matches Flow::Convert(ConvertStage::Checking(c, _)) ==> by_uid(c)
}

/// Every media request starts with a check by the account's number.
pub proof fn lemma_media_starts_by_uid(req: Request, out: (Flow, Action))
    requires
        begins(req, out),
    ensures
        checks_by_uid(out.0),
{
}

/// A media request.
pub open spec fn is_media_request(f: Flow) -> bool {
    f is Download || f is YtDl || f is Convert
}

/// A download, a video download or a conversion asks, before the account
/// is known to be logged in, only whether the account exists and whether
/// it is logged in; it goes past that check only on a "yes" to the
/// logged-in mark, and never falls back behind it.
pub proof fn lemma_media_gate(tmp: Seq<char>, flow: Flow, a: Answer, out: (Flow, Action))
    requires
        is_media_request(flow),
        checks_by_uid(flow),
        moves(tmp, flow, a, out),
    ensures
        checks_by_uid(out.0),
        gated(flow) ==> (out.1 matches Action::Perform(q) ==> {
            ||| gated(out.0) && (q is UidExists || q is LoggedByUid)
            ||| !gated(out.0) && a == Answer::Flag(true) && {
                ||| flow matches Flow::Download(DownloadStage::Checking(LoggedCheck::AwaitMark, _))
                ||| flow matches Flow::YtDl(YtStage::Checking(LoggedCheck::AwaitMark, _))
                ||| flow matches Flow::Convert(ConvertStage::Checking(LoggedCheck::AwaitMark, _))
            }
        }),
        gated(flow) ==> (out.1 matches Action::Respond(reply) ==> reply is Failure),
        !gated(flow) ==> !gated(out.0),
{
}


/// After each piece of outside work the handler waits for exactly the kind
/// of answer that work gives.
pub proof fn lemma_waits_for_its_query(tmp: Seq<char>, flow: Flow, a: Answer, out: (Flow, Action))
    requires
        moves(tmp, flow, a, out),
    ensures
        out.1 matches Action::Perform(q) ==> out.0.expects() == answers_to(q),
        out.1 is Respond ==> out.0.expects() == Expect::Nothing,
{
}

/// The first piece of outside work of a request, too, is waited for with
/// the kind of answer it gives.
pub proof fn lemma_begins_waiting_for_its_query(req: Request, out: (Flow, Action))
    requires
        begins(req, out),
    ensures
        out.1 matches Action::Perform(q) && out.0.expects() == answers_to(q),
{
}

/// A failed database read answers the request with the database's own
/// message.
pub proof fn lemma_database_errors_reach_client(tmp: Seq<char>, flow: Flow, e: String, out: (Flow, Action))
    requires
        moves(tmp, flow, Answer::Failed(e), out),
        flow.expects() == Expect::Flag || flow.expects() == Expect::Account
            || flow.expects() == Expect::Media || flow.expects() == Expect::Blob
            || flow.expects() == Expect::Mid,
    ensures
        out == (Flow::Finished, Action::Respond(Reply::Failure(e))),
{
}

} // verus!
