//! One request from start to reply: the handler asks for outside work
//! until it can answer.
//!
//! The program around the library starts a request with [`begin`],
//! performs each `Action::Perform` it is handed, and passes the answer to
//! [`advance`], until it is handed an `Action::Respond`.

use vstd::prelude::*;
use crate::accounts::{
    add_advance, add_moves, add_start, check_name_finish, check_name_moves, check_name_start,
    chpwd_advance, chpwd_moves, chpwd_start, logged_advance, logged_moves, logged_start,
    login_advance, login_moves, login_start, logout_advance, logout_moves, logout_start, AddStage,
    ChpwdStage, LoginStage, LogoutStage,
};
use crate::checks::{LoggedCheck, Who};
use crate::library::{
    convert_request_advance, convert_request_moves, convert_request_start, download_advance,
    download_moves, download_start, medialist_advance, medialist_start, list_moves,
    yt_dl_advance, yt_dl_start, yt_moves, ConvertStage, DownloadStage, ListStage, YtStage,
};
use crate::naming::TmpName;
use crate::protocol::{answer_fits, fits, Action, Answer, Expect, Query, Reply, Step};
use crate::structs::{Chpwd, Config, Down, FileUpload, Login, User, Uid, Username, Yt};
use crate::tools::{Convert, Fetch};

verus! {

/// A request to the service.
pub enum Request {
    Login(Login),
    Logout(Username),
    Logged(Username),
    Add(User),
    Check(Username),
    Chpwd(Chpwd),
    Medialist(Uid),
    Download(Down),
    YtDl(Yt),
    Convert(FileUpload),
}

/// Where the handling of a request stands.
pub enum Flow {
    Login(LoginStage),
    Logout(LogoutStage),
    Logged(LoggedCheck),
    Add(AddStage),
    Check,
    Chpwd(ChpwdStage),
    Medialist(ListStage),
    Download(DownloadStage),
    YtDl(YtStage),
    Convert(ConvertStage),
    /// The request has been answered.
    Finished,
}

impl Flow {
    /// The kind of answer the handler waits for.
    pub open spec fn expects(self) -> Expect {
        match self {
            Flow::Login(s) => s.expects(),
            Flow::Logout(s) => s.expects(),
            Flow::Logged(_) => Expect::Flag,
            Flow::Add(s) => s.expects(),
            Flow::Check => Expect::Flag,
            Flow::Chpwd(s) => s.expects(),
            Flow::Medialist(s) => s.expects(),
            Flow::Download(s) => s.expects(),
            Flow::YtDl(s) => s.expects(),
            Flow::Convert(s) => s.expects(),
            Flow::Finished => Expect::Nothing,
        }
    }

    /// Whether the handler can go on with the answer `a`: an answer of the
    /// kind it waits for, and, for a conversion that the answer lets start,
    /// an upload whose stored path and file name are known.
    pub open spec fn takes(self, a: Answer) -> bool {
        &&& answer_fits(self.expects(), a)
        &&& self matches Flow::Convert(s) ==> s.takes(a)
    }

    /// Tells whether the handler can go on with the answer `a`.
    pub fn can_take(&self, a: &Answer) -> (b: bool)
        ensures
            b == self.takes(*a),
    {
        let e = self.expecting();
        if !fits(e, a) {
            return false;
        }
        match (self, a) {
            (Flow::Convert(ConvertStage::Checking(LoggedCheck::AwaitMark, up)), Answer::Flag(true)) => {
                up.file_path.is_some() && up.file_name.is_some()
            },
            _ => true,
        }
    }

    /// The kind of answer the handler waits for.
    pub fn expecting(&self) -> (e: Expect)
        ensures
            e == self.expects(),
    {
        match self {
            Flow::Login(LoginStage::AwaitName(_)) => Expect::Flag,
            Flow::Login(LoginStage::AwaitAccount(_)) => Expect::Account,
            Flow::Login(LoginStage::AwaitMark(_, _)) => Expect::Done,
            Flow::Logout(LogoutStage::AwaitName(_)) => Expect::Flag,
            Flow::Logout(LogoutStage::AwaitMark) => Expect::Done,
            Flow::Logged(_) => Expect::Flag,
            Flow::Add(AddStage::AwaitName(_)) => Expect::Flag,
            Flow::Add(AddStage::AwaitEmail(_)) => Expect::Flag,
            Flow::Add(AddStage::AwaitInsert(_)) => Expect::Done,
            Flow::Add(AddStage::AwaitAccount) => Expect::Account,
            Flow::Check => Expect::Flag,
            Flow::Chpwd(ChpwdStage::AwaitName(_)) => Expect::Flag,
            Flow::Chpwd(ChpwdStage::AwaitAccount(_)) => Expect::Account,
            Flow::Chpwd(ChpwdStage::AwaitUpdate) => Expect::Done,
            Flow::Medialist(ListStage::AwaitUser(_)) => Expect::Flag,
            Flow::Medialist(ListStage::AwaitMedia) => Expect::Media,
            Flow::Download(DownloadStage::Checking(_, _)) => Expect::Flag,
            Flow::Download(DownloadStage::AwaitMedia) => Expect::Blob,
            Flow::YtDl(YtStage::Checking(_, _)) => Expect::Flag,
            Flow::YtDl(YtStage::Fetching(Fetch::Naming(TmpName::AwaitFolder(_), _, _), _)) => Expect::Done,
            Flow::YtDl(YtStage::Fetching(Fetch::Naming(TmpName::AwaitListing, _, _), _)) => Expect::Names,
            Flow::YtDl(YtStage::Fetching(Fetch::Naming(TmpName::Drawing(_), _, _), _)) => Expect::Proceed,
            Flow::YtDl(YtStage::Fetching(Fetch::AwaitRun(_), _)) => Expect::Done,
            Flow::YtDl(YtStage::Fetching(Fetch::AwaitFiles(_), _)) => Expect::SomeNames,
            Flow::YtDl(YtStage::AwaitFile(_, _, _)) => Expect::Bytes,
            Flow::YtDl(YtStage::AwaitCleanup(_, _, _)) => Expect::Done,
            Flow::YtDl(YtStage::AwaitInsert(_, _)) => Expect::Done,
            Flow::YtDl(YtStage::AwaitMid(_, _)) => Expect::Mid,
            Flow::Convert(ConvertStage::Checking(_, _)) => Expect::Flag,
            Flow::Convert(ConvertStage::Converting(Convert::Naming(TmpName::AwaitFolder(_), _, _, _), _, _)) => Expect::Done,
            Flow::Convert(ConvertStage::Converting(Convert::Naming(TmpName::AwaitListing, _, _, _), _, _)) => Expect::Names,
            Flow::Convert(ConvertStage::Converting(Convert::Naming(TmpName::Drawing(_), _, _, _), _, _)) => Expect::Proceed,
            Flow::Convert(ConvertStage::Converting(_, _, _)) => Expect::Done,
            Flow::Convert(ConvertStage::AwaitFile(_, _, _)) => Expect::Bytes,
            Flow::Convert(ConvertStage::AwaitCleanup(_, _, _, _)) => Expect::Done,
            Flow::Convert(ConvertStage::AwaitInsert(_, _, _)) => Expect::Done,
            Flow::Convert(ConvertStage::AwaitMid(_, _, _)) => Expect::Mid,
            Flow::Finished => Expect::Nothing,
        }
    }
}

/// An endpoint's move `r`, seen as a move of the whole handler.
pub open spec fn lifts<S>(r: Step<S, Reply>, wrap: spec_fn(S) -> Flow, out: (Flow, Action)) -> bool {
    match r {
        Step::Ask(s, q) => out == (wrap(s), Action::Perform(q)),
        Step::Finish(reply) => out == (Flow::Finished, Action::Respond(reply)),
    }
}

/// How the handling of `req` starts.
pub open spec fn begins(req: Request, out: (Flow, Action)) -> bool {
    match req {
        Request::Login(l) => out == (Flow::Login(LoginStage::AwaitName(l)), Action::Perform(Query::NameExists(l.username))),
        Request::Logout(u) => out == (Flow::Logout(LogoutStage::AwaitName(u.username)), Action::Perform(Query::NameExists(u.username))),
        Request::Logged(u) => out == (Flow::Logged(LoggedCheck::AwaitExists(Who::Name(u.username))), Action::Perform(Query::NameExists(u.username))),
        Request::Add(user) => out == (Flow::Add(AddStage::AwaitName(user)), Action::Perform(Query::NameExists(user.username))),
        Request::Check(u) => out == (Flow::Check, Action::Perform(Query::NameExists(u.username))),
        Request::Chpwd(c) => out == (Flow::Chpwd(ChpwdStage::AwaitName(c)), Action::Perform(Query::NameExists(c.username))),
        Request::Medialist(u) => out == (Flow::Medialist(ListStage::AwaitUser(u.uid)), Action::Perform(Query::UidExists(u.uid))),
        Request::Download(d) => out == (Flow::Download(DownloadStage::Checking(LoggedCheck::AwaitExists(Who::Uid(d.uid)), d)), Action::Perform(Query::UidExists(d.uid))),
        Request::YtDl(y) => out == (Flow::YtDl(YtStage::Checking(LoggedCheck::AwaitExists(Who::Uid(y.uid)), y)), Action::Perform(Query::UidExists(y.uid))),
        Request::Convert(f) => out == (Flow::Convert(ConvertStage::Checking(LoggedCheck::AwaitExists(Who::Uid(f.uid)), f)), Action::Perform(Query::UidExists(f.uid))),
    }
}

/// The one move of the handler from `flow` on the answer `a`, with
/// temporary files under `tmp`.
pub open spec fn moves(tmp: Seq<char>, flow: Flow, a: Answer, out: (Flow, Action)) -> bool {
    match flow {
        Flow::Login(s) => exists|r: Step<LoginStage, Reply>| #[trigger] login_moves(s, a, r) && lifts(r, |s2: LoginStage| Flow::Login(s2), out),
        Flow::Logout(s) => exists|r: Step<LogoutStage, Reply>| #[trigger] logout_moves(s, a, r) && lifts(r, |s2: LogoutStage| Flow::Logout(s2), out),
        Flow::Logged(s) => exists|r: Step<LoggedCheck, Reply>| #[trigger] logged_moves(s, a, r) && lifts(r, |s2: LoggedCheck| Flow::Logged(s2), out),
        Flow::Add(s) => exists|r: Step<AddStage, Reply>| #[trigger] add_moves(s, a, r) && lifts(r, |s2: AddStage| Flow::Add(s2), out),
        Flow::Check => exists|r: Reply| #[trigger] check_name_moves(a, r) && out == (Flow::Finished, Action::Respond(r)),
        Flow::Chpwd(s) => exists|r: Step<ChpwdStage, Reply>| #[trigger] chpwd_moves(s, a, r) && lifts(r, |s2: ChpwdStage| Flow::Chpwd(s2), out),
        Flow::Medialist(s) => exists|r: Step<ListStage, Reply>| #[trigger] list_moves(s, a, r) && lifts(r, |s2: ListStage| Flow::Medialist(s2), out),
        Flow::Download(s) => exists|r: Step<DownloadStage, Reply>| #[trigger] download_moves(s, a, r) && lifts(r, |s2: DownloadStage| Flow::Download(s2), out),
        Flow::YtDl(s) => exists|r: Step<YtStage, Reply>| #[trigger] yt_moves(tmp, s, a, r) && lifts(r, |s2: YtStage| Flow::YtDl(s2), out),
        Flow::Convert(s) => exists|r: Step<ConvertStage, Reply>| #[trigger] convert_request_moves(tmp, s, a, r) && lifts(r, |s2: ConvertStage| Flow::Convert(s2), out),
        Flow::Finished => false,
    }
}

/// Starts handling `req`: the first piece of outside work to perform.
pub fn begin(req: Request) -> (out: (Flow, Action))
    ensures
        begins(req, out),
{
    match req {
        Request::Login(l) => {
            let (s, q) = login_start(l);
            (Flow::Login(s), Action::Perform(q))
        },
        Request::Logout(u) => {
            let (s, q) = logout_start(u);
            (Flow::Logout(s), Action::Perform(q))
        },
        Request::Logged(u) => {
            let (s, q) = logged_start(u);
            (Flow::Logged(s), Action::Perform(q))
        },
        Request::Add(user) => {
            let (s, q) = add_start(user);
            (Flow::Add(s), Action::Perform(q))
        },
        Request::Check(u) => (Flow::Check, Action::Perform(check_name_start(u))),
        Request::Chpwd(c) => {
            let (s, q) = chpwd_start(c);
            (Flow::Chpwd(s), Action::Perform(q))
        },
        Request::Medialist(u) => {
            let (s, q) = medialist_start(u);
            (Flow::Medialist(s), Action::Perform(q))
        },
        Request::Download(d) => {
            let (s, q) = download_start(d);
            (Flow::Download(s), Action::Perform(q))
        },
        Request::YtDl(y) => {
            let (s, q) = yt_dl_start(y);
            (Flow::YtDl(s), Action::Perform(q))
        },
        Request::Convert(f) => {
            let (s, q) = convert_request_start(f);
            (Flow::Convert(s), Action::Perform(q))
        },
    }
}

/// Moves the handling of a request on with the answer to its last piece
/// of outside work: the next piece to perform, or the reply.
pub fn advance(cfg: &Config, flow: Flow, a: Answer) -> (out: (Flow, Action))
    requires
        flow.takes(a),
    ensures
        moves(cfg.tmppath@, flow, a, out),
{
    match flow {
        Flow::Login(s) => match login_advance(s, a) {
            Step::Ask(s2, q) => (Flow::Login(s2), Action::Perform(q)),
            Step::Finish(r) => (Flow::Finished, Action::Respond(r)),
        },
        Flow::Logout(s) => match logout_advance(s, a) {
            Step::Ask(s2, q) => (Flow::Logout(s2), Action::Perform(q)),
            Step::Finish(r) => (Flow::Finished, Action::Respond(r)),
        },
        Flow::Logged(s) => match logged_advance(s, a) {
            Step::Ask(s2, q) => (Flow::Logged(s2), Action::Perform(q)),
            Step::Finish(r) => (Flow::Finished, Action::Respond(r)),
        },
        Flow::Add(s) => match add_advance(s, a) {
            Step::Ask(s2, q) => (Flow::Add(s2), Action::Perform(q)),
            Step::Finish(r) => (Flow::Finished, Action::Respond(r)),
        },
        Flow::Check => (Flow::Finished, Action::Respond(check_name_finish(a))),
        Flow::Chpwd(s) => match chpwd_advance(s, a) {
            Step::Ask(s2, q) => (Flow::Chpwd(s2), Action::Perform(q)),
            Step::Finish(r) => (Flow::Finished, Action::Respond(r)),
        },
        Flow::Medialist(s) => match medialist_advance(s, a) {
            Step::Ask(s2, q) => (Flow::Medialist(s2), Action::Perform(q)),
            Step::Finish(r) => (Flow::Finished, Action::Respond(r)),
        },
        Flow::Download(s) => match download_advance(s, a) {
            Step::Ask(s2, q) => (Flow::Download(s2), Action::Perform(q)),
            Step::Finish(r) => (Flow::Finished, Action::Respond(r)),
        },
        Flow::YtDl(s) => match yt_dl_advance(&cfg.tmppath, s, a) {
            Step::Ask(s2, q) => (Flow::YtDl(s2), Action::Perform(q)),
            Step::Finish(r) => (Flow::Finished, Action::Respond(r)),
        },
        Flow::Convert(s) => match convert_request_advance(&cfg.tmppath, s, a) {
            Step::Ask(s2, q) => (Flow::Convert(s2), Action::Perform(q)),
            Step::Finish(r) => (Flow::Finished, Action::Respond(r)),
        },
        Flow::Finished => vstd::pervasive::unreached(),
    }
}

} // verus!
