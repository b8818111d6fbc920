//! The account requests: login, logout, logged-in state, sign-up, the
//! existence check and password change.

use vstd::prelude::*;
use crate::checks::{check_advance, check_moves, logged_uname_fn, Checked, LoggedCheck, Who};
use crate::protocol::{finishes_failing, refuse, Answer, Expect, Notice, Query, Reply, Step};
use crate::structs::{Chpwd, Login, User, Username};

verus! {

/// A failed query answers the request with the query's own message.
pub open spec fn passes_failure<S>(a: Answer, r: Step<S, Reply>) -> bool {
    a matches Answer::Failed(e) ==> r == Step::<S, Reply>::Finish(Reply::Failure(e))
}

// ----- login -----

/// Where a login stands.
pub enum LoginStage {
    /// Does the account exist? (the request)
    AwaitName(Login),
    /// Its stored row is fetched. (the request)
    AwaitAccount(Login),
    /// It is being marked as logged in. (the request, the stored row)
    AwaitMark(Login, Login),
}

impl LoginStage {
    /// The kind of answer the stage waits for.
    pub open spec fn expects(self) -> Expect {
        match self {
            LoginStage::AwaitName(_) => Expect::Flag,
            LoginStage::AwaitAccount(_) => Expect::Account,
            LoginStage::AwaitMark(_, _) => Expect::Done,
        }
    }

    /// A login is marked only for a stored row whose password is the one
    /// the request gave.
    pub open spec fn inv(self) -> bool {
        self matches LoginStage::AwaitMark(req, row) ==> row.password@ == req.password@
    }
}

/// The one move of a login from `stage` on `a`.
pub open spec fn login_moves(stage: LoginStage, a: Answer, r: Step<LoginStage, Reply>) -> bool {
    &&& passes_failure(a, r)
    &&& match stage {
        LoginStage::AwaitName(req) => match a {
            Answer::Flag(true) => r == Step::<LoginStage, Reply>::Ask(LoginStage::AwaitAccount(req), Query::FetchAccount(req.username)),
            Answer::Flag(false) => finishes_failing(r, Notice::WrongCredentials.words()),
            Answer::Failed(_) => true,
            _ => false,
        },
        LoginStage::AwaitAccount(req) => match a {
            Answer::Account(Some(row)) => if row.password@ == req.password@ {
                r == Step::<LoginStage, Reply>::Ask(LoginStage::AwaitMark(req, row), Query::SetLogged(req.username, true))
            } else {
                finishes_failing(r, Notice::WrongCredentials.words())
            },
            Answer::Account(None) => finishes_failing(r, Notice::WrongCredentials.words()),
            Answer::Failed(_) => true,
            _ => false,
        },
        LoginStage::AwaitMark(_, row) => match a {
            Answer::Done => r == Step::<LoginStage, Reply>::Finish(Reply::Account { id: row.id, username: row.username }),
            Answer::Failed(_) => true,
            _ => false,
        },
    }
}

/// Starts a login: asks whether the account exists.
pub fn login_start(req: Login) -> (r: (LoginStage, Query))
    ensures
        r.1 == Query::NameExists(req.username),
        r.0 == LoginStage::AwaitName(req),
{
    let q = Query::NameExists(req.username.clone());
    (LoginStage::AwaitName(req), q)
}

/// Moves a login on: an unknown account, a missing row or a wrong password
/// fail with "Wrong Credentials!"; the right password marks the account as
/// logged in and answers its number and name.
pub fn login_advance(stage: LoginStage, a: Answer) -> (r: Step<LoginStage, Reply>)
    requires
        crate::protocol::answer_fits(stage.expects(), a),
    ensures
        login_moves(stage, a, r),
{
    if let Answer::Failed(e) = a {
        return Step::Finish(Reply::Failure(e));
    }
    match stage {
        LoginStage::AwaitName(req) => match a {
            Answer::Flag(true) => {
                let q = Query::FetchAccount(req.username.clone());
                Step::Ask(LoginStage::AwaitAccount(req), q)
            },
            _ => refuse(Notice::WrongCredentials),
        },
        LoginStage::AwaitAccount(req) => match a {
            Answer::Account(Some(row)) => {
                if row.password == req.password {
                    let q = Query::SetLogged(req.username.clone(), true);
                    Step::Ask(LoginStage::AwaitMark(req, row), q)
                } else {
                    refuse(Notice::WrongCredentials)
                }
            },
            _ => refuse(Notice::WrongCredentials),
        },
        LoginStage::AwaitMark(_, row) => Step::Finish(Reply::Account { id: row.id, username: row.username }),
    }
}

// ----- logout -----

/// Where a logout stands.
pub enum LogoutStage {
    /// Does the account of this name exist?
    AwaitName(String),
    /// It is being marked as logged out.
    AwaitMark,
}

impl LogoutStage {
    /// The kind of answer the stage waits for.
    pub open spec fn expects(self) -> Expect {
        match self {
            LogoutStage::AwaitName(_) => Expect::Flag,
            LogoutStage::AwaitMark => Expect::Done,
        }
    }
}

/// The one move of a logout from `stage` on `a`.
pub open spec fn logout_moves(stage: LogoutStage, a: Answer, r: Step<LogoutStage, Reply>) -> bool {
    &&& passes_failure(a, r)
    &&& match stage {
        LogoutStage::AwaitName(name) => match a {
            Answer::Flag(true) => r == Step::<LogoutStage, Reply>::Ask(LogoutStage::AwaitMark, Query::SetLogged(name, false)),
            Answer::Flag(false) => finishes_failing(r, Notice::UnknownUser.words()),
            Answer::Failed(_) => true,
            _ => false,
        },
        LogoutStage::AwaitMark => match a {
            Answer::Done => r matches Step::Finish(Reply::Note(m)) && m@ == Notice::LoggedOut.words(),
            Answer::Failed(_) => true,
            _ => false,
        },
    }
}

/// Starts a logout: asks whether the account exists.
pub fn logout_start(req: Username) -> (r: (LogoutStage, Query))
    ensures
        r.1 == Query::NameExists(req.username),
        r.0 == LogoutStage::AwaitName(req.username),
{
    let q = Query::NameExists(req.username.clone());
    (LogoutStage::AwaitName(req.username), q)
}

/// Moves a logout on: an unknown account fails with "User does not exist!",
/// a known one is marked as logged out.
pub fn logout_advance(stage: LogoutStage, a: Answer) -> (r: Step<LogoutStage, Reply>)
    requires
        crate::protocol::answer_fits(stage.expects(), a),
    ensures
        logout_moves(stage, a, r),
{
    if let Answer::Failed(e) = a {
        return Step::Finish(Reply::Failure(e));
    }
    match stage {
        LogoutStage::AwaitName(name) => match a {
            Answer::Flag(true) => Step::Ask(LogoutStage::AwaitMark, Query::SetLogged(name, false)),
            _ => refuse(Notice::UnknownUser),
        },
        LogoutStage::AwaitMark => Step::Finish(Reply::Note(Notice::LoggedOut.text())),
    }
}

// ----- logged -----

/// The one move of a logged-in request from the check `stage` on `a`.
pub open spec fn logged_moves(stage: LoggedCheck, a: Answer, r: Step<LoggedCheck, Reply>) -> bool {
    exists|s: Step<LoggedCheck, Checked>| #[trigger] check_moves(stage, a, s) && match s {
        Step::Ask(st, q) => r == Step::<LoggedCheck, Reply>::Ask(st, q),
        Step::Finish(Ok(b)) => r == Step::<LoggedCheck, Reply>::Finish(Reply::Logged(b)),
        Step::Finish(Err(e)) => r == Step::<LoggedCheck, Reply>::Finish(Reply::Failure(e)),
    }
}

/// Starts a logged-in request: checks the account by name.
pub fn logged_start(req: Username) -> (r: (LoggedCheck, Query))
    ensures
        r.1 == Query::NameExists(req.username),
        r.0 == LoggedCheck::AwaitExists(Who::Name(req.username)),
{
    logged_uname_fn(req.username)
}

/// Moves a logged-in request on: answers the account's logged-in mark, or
/// why it could not be read.
pub fn logged_advance(stage: LoggedCheck, a: Answer) -> (r: Step<LoggedCheck, Reply>)
    requires
        crate::protocol::answer_fits(Expect::Flag, a),
    ensures
        logged_moves(stage, a, r),
{
    match check_advance(stage, a) {
        Step::Ask(st, q) => Step::Ask(st, q),
        Step::Finish(Ok(b)) => Step::Finish(Reply::Logged(b)),
        Step::Finish(Err(e)) => Step::Finish(Reply::Failure(e)),
    }
}

// ----- add -----

/// Where a sign-up stands.
pub enum AddStage {
    /// Is the name taken? (the new account)
    AwaitName(User),
    /// Is the e-mail address taken? (the new account)
    AwaitEmail(User),
    /// The account of this name is being stored.
    AwaitInsert(String),
    /// The stored row is fetched back.
    AwaitAccount,
}

impl AddStage {
    /// The kind of answer the stage waits for.
    pub open spec fn expects(self) -> Expect {
        match self {
            AddStage::AwaitName(_) => Expect::Flag,
            AddStage::AwaitEmail(_) => Expect::Flag,
            AddStage::AwaitInsert(_) => Expect::Done,
            AddStage::AwaitAccount => Expect::Account,
        }
    }
}

/// The one move of a sign-up from `stage` on `a`.
pub open spec fn add_moves(stage: AddStage, a: Answer, r: Step<AddStage, Reply>) -> bool {
    &&& passes_failure(a, r)
    &&& match stage {
        AddStage::AwaitName(user) => match a {
            Answer::Flag(true) => finishes_failing(r, Notice::UserTaken.words()),
            Answer::Flag(false) => r == Step::<AddStage, Reply>::Ask(AddStage::AwaitEmail(user), Query::EmailExists(user.email)),
            Answer::Failed(_) => true,
            _ => false,
        },
        AddStage::AwaitEmail(user) => match a {
            Answer::Flag(true) => finishes_failing(r, Notice::EmailTaken.words()),
            Answer::Flag(false) => r == Step::<AddStage, Reply>::Ask(AddStage::AwaitInsert(user.username), Query::InsertUser(user)),
            Answer::Failed(_) => true,
            _ => false,
        },
        AddStage::AwaitInsert(name) => match a {
            Answer::Done => r == Step::<AddStage, Reply>::Ask(AddStage::AwaitAccount, Query::FetchAccount(name)),
            Answer::Failed(_) => true,
            _ => false,
        },
        AddStage::AwaitAccount => match a {
            Answer::Account(Some(row)) => r == Step::<AddStage, Reply>::Finish(Reply::Account { id: row.id, username: row.username }),
            Answer::Account(None) => finishes_failing(r, Notice::AccountVanished.words()),
            Answer::Failed(_) => true,
            _ => false,
        },
    }
}

/// Starts a sign-up: asks whether the name is taken.
pub fn add_start(user: User) -> (r: (AddStage, Query))
    ensures
        r.1 == Query::NameExists(user.username),
        r.0 == AddStage::AwaitName(user),
{
    let q = Query::NameExists(user.username.clone());
    (AddStage::AwaitName(user), q)
}

/// Moves a sign-up on: a taken name fails with "User already exists!", a
/// taken e-mail address with "Email already taken!"; otherwise the account
/// is stored and its number and name are answered.
pub fn add_advance(stage: AddStage, a: Answer) -> (r: Step<AddStage, Reply>)
    requires
        crate::protocol::answer_fits(stage.expects(), a),
    ensures
        add_moves(stage, a, r),
{
    if let Answer::Failed(e) = a {
        return Step::Finish(Reply::Failure(e));
    }
    match stage {
        AddStage::AwaitName(user) => match a {
            Answer::Flag(false) => {
                let q = Query::EmailExists(user.email.clone());
                Step::Ask(AddStage::AwaitEmail(user), q)
            },
            _ => refuse(Notice::UserTaken),
        },
        AddStage::AwaitEmail(user) => match a {
            Answer::Flag(false) => {
                let name = user.username.clone();
                Step::Ask(AddStage::AwaitInsert(name), Query::InsertUser(user))
            },
            _ => refuse(Notice::EmailTaken),
        },
        AddStage::AwaitInsert(name) => Step::Ask(AddStage::AwaitAccount, Query::FetchAccount(name)),
        AddStage::AwaitAccount => match a {
            Answer::Account(Some(row)) => Step::Finish(Reply::Account { id: row.id, username: row.username }),
            _ => refuse(Notice::AccountVanished),
        },
    }
}

// ----- check -----

/// The one move of an existence check, which waits for one answer.
pub open spec fn check_name_moves(a: Answer, r: Reply) -> bool {
    match a {
        Answer::Flag(b) => r == Reply::Exists(b),
        Answer::Failed(e) => r == Reply::Failure(e),
        _ => false,
    }
}

/// Starts an existence check: asks whether the account exists.
pub fn check_name_start(req: Username) -> (q: Query)
    ensures
        q == Query::NameExists(req.username),
{
    Query::NameExists(req.username)
}

/// Answers an existence check: whether the account exists.
pub fn check_name_finish(a: Answer) -> (r: Reply)
    requires
        crate::protocol::answer_fits(Expect::Flag, a),
    ensures
        check_name_moves(a, r),
{
    match a {
        Answer::Flag(b) => Reply::Exists(b),
        Answer::Failed(e) => Reply::Failure(e),
        _ => vstd::pervasive::unreached(),
    }
}

// ----- chpwd -----

/// Where a password change stands.
pub enum ChpwdStage {
    /// Does the account exist? (the request)
    AwaitName(Chpwd),
    /// Its stored row is fetched. (the request)
    AwaitAccount(Chpwd),
    /// The new password is being stored.
    AwaitUpdate,
}

impl ChpwdStage {
    /// The kind of answer the stage waits for.
    pub open spec fn expects(self) -> Expect {
        match self {
            ChpwdStage::AwaitName(_) => Expect::Flag,
            ChpwdStage::AwaitAccount(_) => Expect::Account,
            ChpwdStage::AwaitUpdate => Expect::Done,
        }
    }
}

/// The one move of a password change from `stage` on `a`.
pub open spec fn chpwd_moves(stage: ChpwdStage, a: Answer, r: Step<ChpwdStage, Reply>) -> bool {
    &&& passes_failure(a, r)
    &&& match stage {
        ChpwdStage::AwaitName(req) => match a {
            Answer::Flag(true) => r == Step::<ChpwdStage, Reply>::Ask(ChpwdStage::AwaitAccount(req), Query::FetchAccount(req.username)),
            Answer::Flag(false) => finishes_failing(r, Notice::UnknownUser.words()),
            Answer::Failed(_) => true,
            _ => false,
        },
        ChpwdStage::AwaitAccount(req) => match a {
            Answer::Account(Some(row)) => if row.password@ == req.oldpwd@ {
                r == Step::<ChpwdStage, Reply>::Ask(ChpwdStage::AwaitUpdate, Query::SetPassword(req.username, req.newpwd))
            } else {
                finishes_failing(r, Notice::WrongCredentials.words())
            },
            Answer::Account(None) => finishes_failing(r, Notice::UnknownUser.words()),
            Answer::Failed(_) => true,
            _ => false,
        },
        ChpwdStage::AwaitUpdate => match a {
            Answer::Done => r matches Step::Finish(Reply::Note(m)) && m@ == Notice::PasswordChanged.words(),
            Answer::Failed(_) => true,
            _ => false,
        },
    }
}

/// Starts a password change: asks whether the account exists.
pub fn chpwd_start(req: Chpwd) -> (r: (ChpwdStage, Query))
    ensures
        r.1 == Query::NameExists(req.username),
        r.0 == ChpwdStage::AwaitName(req),
{
    let q = Query::NameExists(req.username.clone());
    (ChpwdStage::AwaitName(req), q)
}

/// Moves a password change on: an unknown account fails with "User does
/// not exist!", a wrong current password with "Wrong Credentials!"; the
/// right one has the new password stored.
pub fn chpwd_advance(stage: ChpwdStage, a: Answer) -> (r: Step<ChpwdStage, Reply>)
    requires
        crate::protocol::answer_fits(stage.expects(), a),
    ensures
        chpwd_moves(stage, a, r),
{
    if let Answer::Failed(e) = a {
        return Step::Finish(Reply::Failure(e));
    }
    match stage {
        ChpwdStage::AwaitName(req) => match a {
            Answer::Flag(true) => {
                let q = Query::FetchAccount(req.username.clone());
                Step::Ask(ChpwdStage::AwaitAccount(req), q)
            },
            _ => refuse(Notice::UnknownUser),
        },
        ChpwdStage::AwaitAccount(req) => match a {
            Answer::Account(Some(row)) => {
                if row.password == req.oldpwd {
                    Step::Ask(ChpwdStage::AwaitUpdate, Query::SetPassword(req.username, req.newpwd))
                } else {
                    refuse(Notice::WrongCredentials)
                }
            },
            _ => refuse(Notice::UnknownUser),
        },
        ChpwdStage::AwaitUpdate => Step::Finish(Reply::Note(Notice::PasswordChanged.text())),
    }
}

} // verus!
