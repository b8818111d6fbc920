//! Whether an account is logged in: first that it exists, then its mark.

use vstd::prelude::*;
use crate::protocol::{Answer, Expect, Notice, Query, Step};

verus! {

/// An account, by name or by number.
pub enum Who {
    Name(String),
    Uid(i32),
}

/// The query whether the account exists.
pub open spec fn exists_query(who: Who) -> Query {
    match who {
        Who::Name(n) => Query::NameExists(n),
        Who::Uid(u) => Query::UidExists(u),
    }
}

/// The query for the account's logged-in mark.
pub open spec fn logged_query(who: Who) -> Query {
    match who {
        Who::Name(n) => Query::LoggedByName(n),
        Who::Uid(u) => Query::LoggedByUid(u),
    }
}

/// Where a logged-in check stands.
pub enum LoggedCheck {
    /// The existence query is out.
    AwaitExists(Who),
    /// The logged-in mark is asked for.
    AwaitMark,
}

/// What a logged-in check ends with: the mark, or the failure message.
pub type Checked = Result<bool, String>;

/// The one move of a logged-in check from `stage` on `a`.
pub open spec fn check_moves(stage: LoggedCheck, a: Answer, r: Step<LoggedCheck, Checked>) -> bool {
    match stage {
        LoggedCheck::AwaitExists(who) => match a {
            Answer::Flag(true) => r == Step::<LoggedCheck, Checked>::Ask(LoggedCheck::AwaitMark, logged_query(who)),
            Answer::Flag(false) => r matches Step::Finish(Err(e)) && e@ == Notice::UnknownUser.words(),
            Answer::Failed(e) => r == Step::<LoggedCheck, Checked>::Finish(Err(e)),
            _ => false,
        },
        LoggedCheck::AwaitMark => match a {
            Answer::Flag(b) => r == Step::<LoggedCheck, Checked>::Finish(Ok(b)),
            Answer::Failed(e) => r == Step::<LoggedCheck, Checked>::Finish(Err(e)),
            _ => false,
        },
    }
}

/// Starts a logged-in check of `who`: asks whether the account exists.
pub fn check_start(who: Who) -> (r: (LoggedCheck, Query))
    ensures
        r.0 == LoggedCheck::AwaitExists(who),
        r.1 == exists_query(who),
{
    let q = match &who {
        Who::Name(n) => Query::NameExists(n.clone()),
        Who::Uid(u) => Query::UidExists(*u),
    };
    (LoggedCheck::AwaitExists(who), q)
}

/// Moves a logged-in check on with the answer to its last query: an
/// unknown account fails with "User does not exist!", a known one has its
/// mark asked for, and a failed query fails with its own message.
pub fn check_advance(stage: LoggedCheck, a: Answer) -> (r: Step<LoggedCheck, Checked>)
    requires
        crate::protocol::answer_fits(Expect::Flag, a),
    ensures
        check_moves(stage, a, r),
{
    match stage {
        LoggedCheck::AwaitExists(who) => match a {
            Answer::Flag(true) => {
                let q = match who {
                    Who::Name(n) => Query::LoggedByName(n),
                    Who::Uid(u) => Query::LoggedByUid(u),
                };
                Step::Ask(LoggedCheck::AwaitMark, q)
            },
            Answer::Flag(false) => Step::Finish(Err(Notice::UnknownUser.text())),
            Answer::Failed(e) => Step::Finish(Err(e)),
            _ => vstd::pervasive::unreached(),
        },
        LoggedCheck::AwaitMark => match a {
            Answer::Flag(b) => Step::Finish(Ok(b)),
            Answer::Failed(e) => Step::Finish(Err(e)),
            _ => vstd::pervasive::unreached(),
        },
    }
}


/// Starts checking whether the account named `username` is logged in.
pub fn logged_uname_fn(username: String) -> (r: (LoggedCheck, Query))
    ensures
        r.0 == LoggedCheck::AwaitExists(Who::Name(username)),
        r.1 == Query::NameExists(username),
{
    check_start(Who::Name(username))
}

/// Starts checking whether the account numbered `uid` is logged in.
pub fn logged_uid_fn(uid: i32) -> (r: (LoggedCheck, Query))
    ensures
        r.0 == LoggedCheck::AwaitExists(Who::Uid(uid)),
        r.1 == Query::UidExists(uid),
{
    check_start(Who::Uid(uid))
}

} // verus!
