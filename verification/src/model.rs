//! What the database is taken to be: a table of accounts keyed by name and
//! a table of media keyed by number, which answer the statements truthfully
//! and apply the writes. Over this model, whole requests and sequences of
//! requests are related to what the database holds before and after them.

use vstd::prelude::*;
use crate::accounts::{LoginStage, LogoutStage};
use crate::flow::{begins, moves, Flow, Request};
use crate::library::{keyed_by_position, ConvertStage, YtStage};
use crate::protocol::{answer_fits, answers_to, Action, Answer, Notice, Query, Reply};
use crate::structs::{Chpwd, Down, Login, Media, Uid, User, Username};

verus! {

/// What the database holds of one account.
pub struct Row {
    pub id: int,
    pub email: Seq<char>,
    pub password: Seq<char>,
    pub logged: bool,
}

/// What the database holds of one medium.
pub struct Medium {
    pub uid: int,
    pub data: Seq<u8>,
    pub name: Seq<char>,
    pub format: int,
}

/// What the database holds: the accounts by name, the media by number, and
/// the number of the medium stored last.
pub struct Store {
    pub accounts: Map<Seq<char>, Row>,
    pub media: Map<int, Medium>,
    pub latest: Option<int>,
}

/// The account named `k` has the number `uid`.
pub open spec fn numbered(db: Store, uid: int, k: Seq<char>) -> bool {
    db.accounts.contains_key(k) && db.accounts[k].id == uid
}

/// Some account has the number `uid`.
pub open spec fn has_number(db: Store, uid: int) -> bool {
    exists|k: Seq<char>| #[trigger] numbered(db, uid, k)
}

/// No two accounts share a number.
pub open spec fn numbers_distinct(db: Store) -> bool {
    forall|k1: Seq<char>, k2: Seq<char>|
        #[trigger] db.accounts.contains_key(k1) && #[trigger] db.accounts.contains_key(k2)
            && db.accounts[k1].id == db.accounts[k2].id ==> k1 == k2
}

/// `rows` lists the media of the account numbered `uid`, each once.
pub open spec fn lists(rows: Seq<Media>, db: Store, uid: int) -> bool {
    &&& forall|i: int| 0 <= i < rows.len() ==> {
        let m = (#[trigger] rows[i]).mid as int;
        &&& db.media.contains_key(m)
        &&& db.media[m].uid == uid
        &&& db.media[m].name == rows[i].mname@
        &&& db.media[m].format == rows[i].mformat as int
    }
    &&& forall|m: int| #[trigger] db.media.contains_key(m) && db.media[m].uid == uid
        ==> exists|i: int| 0 <= i < rows.len() && (#[trigger] rows[i]).mid as int == m
    &&& forall|i: int, j: int| 0 <= i < rows.len() && 0 <= j < rows.len() && i != j
        ==> (#[trigger] rows[i]).mid != (#[trigger] rows[j]).mid
}

/// `a` is what the database holding `db` answers to `q`. Its statements
/// are answered truthfully and succeed; the work on files and tools may
/// give any answer of its kind.
pub open spec fn answers(db: Store, q: Query, a: Answer) -> bool {
    match q {
        Query::NameExists(n) => a == Answer::Flag(db.accounts.contains_key(n@)),
        Query::EmailExists(e) => a == Answer::Flag(
            exists|k: Seq<char>| #[trigger] db.accounts.contains_key(k) && db.accounts[k].email == e@,
        ),
        Query::UidExists(u) => a == Answer::Flag(has_number(db, u as int)),
        Query::LoggedByName(n) => db.accounts.contains_key(n@) && a == Answer::Flag(db.accounts[n@].logged),
        Query::LoggedByUid(u) => exists|k: Seq<char>| #[trigger] numbered(db, u as int, k) && a == Answer::Flag(db.accounts[k].logged),
        Query::FetchAccount(n) => if db.accounts.contains_key(n@) {
            &&& a matches Answer::Account(Some(row))
            &&& row.id matches Some(i)
            &&& i as int == db.accounts[n@].id
            &&& row.username@ == n@
            &&& row.password@ == db.accounts[n@].password
        } else {
            a == Answer::Account(None)
        },
        Query::ListMedia(u) => a matches Answer::Media(rows) && lists(rows@, db, u as int),
        Query::FetchMedia(u, m) => if db.media.contains_key(m as int) && db.media[m as int].uid == u as int {
            a matches Answer::Blob(Some(d)) && d@ == db.media[m as int].data
        } else {
            a == Answer::Blob(None)
        },
        Query::LatestMid => a matches Answer::Mid(x) && db.latest == Some(x as int),
        Query::SetLogged(_, _) | Query::InsertUser(_) | Query::SetPassword(_, _) | Query::InsertMedia(_, _, _, _) => a == Answer::Done,
        _ => answer_fits(answers_to(q), a),
    }
}

/// `after` is what the database holds once `q` ran on `db`: marks and
/// passwords of existing accounts are set, a new name gets a new account
/// (with a number no account has, logged out), a stored medium gets a new
/// number and becomes the latest, and nothing else changes.
pub open spec fn applies(db: Store, q: Query, after: Store) -> bool {
    match q {
        Query::SetLogged(n, b) => after == if db.accounts.contains_key(n@) {
            Store { accounts: db.accounts.insert(n@, Row { logged: b, ..db.accounts[n@] }), ..db }
        } else {
            db
        },
        Query::SetPassword(n, p) => after == if db.accounts.contains_key(n@) {
            Store { accounts: db.accounts.insert(n@, Row { password: p@, ..db.accounts[n@] }), ..db }
        } else {
            db
        },
        Query::InsertUser(u) => if db.accounts.contains_key(u.username@) {
            after == db
        } else {
            exists|id: int| {
                &&& forall|k: Seq<char>| #[trigger] db.accounts.contains_key(k) ==> db.accounts[k].id != id
                &&& after == Store {
                    accounts: db.accounts.insert(u.username@, Row { id, email: u.email@, password: u.password@, logged: false }),
                    ..db
                }
            }
        },
        Query::InsertMedia(u, d, n, f) => exists|m: int| {
            &&& i32::MIN <= m <= i32::MAX
            &&& !db.media.contains_key(m)
            &&& after == Store {
                media: db.media.insert(m, Medium { uid: u as int, data: d@, name: n@, format: f as int }),
                latest: Some(m),
                ..db
            }
        },
        _ => after == db,
    }
}

/// Handling a request from `flow`, about to take `act`, on a database
/// holding `db`, ends within `fuel` pieces of outside work with the reply
/// `reply` and the database holding `end`; temporary files go under `tmp`.
pub open spec fn serves(tmp: Seq<char>, db: Store, flow: Flow, act: Action, end: Store, reply: Reply, fuel: nat) -> bool
    decreases fuel,
{
    match act {
        Action::Respond(r) => end == db && reply == r,
        Action::Perform(q) => fuel > 0 && exists|a: Answer, mid: Store, out: (Flow, Action)| {
            &&& #[trigger] answers(db, q, a)
            &&& #[trigger] applies(db, q, mid)
            &&& #[trigger] moves(tmp, flow, a, out)
            &&& serves(tmp, mid, out.0, out.1, end, reply, (fuel - 1) as nat)
        },
    }
}

/// Handling the request `req` on a database holding `db` ends with the
/// reply `reply` and the database holding `end`.
pub open spec fn handles(tmp: Seq<char>, db: Store, req: Request, end: Store, reply: Reply) -> bool {
    exists|start: (Flow, Action), fuel: nat| #[trigger] begins(req, start) && #[trigger] serves(tmp, db, start.0, start.1, end, reply, fuel)
}

/// Handling the requests `reqs` one after another on a database holding
/// `db` answers them with `replies` and leaves it holding `end`.
pub open spec fn session(tmp: Seq<char>, db: Store, reqs: Seq<Request>, replies: Seq<Reply>, end: Store) -> bool
    decreases reqs.len(),
{
    if reqs.len() == 0 {
        end == db && replies.len() == 0
    } else {
        &&& replies.len() == reqs.len()
        &&& exists|mid: Store| #[trigger] handles(tmp, db, reqs[0], mid, replies[0])
            && session(tmp, mid, reqs.drop_first(), replies.drop_first(), end)
    }
}

/// The database keeps every account and every medium it held; an account
/// may have its mark or password set.
pub open spec fn keeps(db: Store, end: Store) -> bool {
    &&& forall|k: Seq<char>| #[trigger] db.accounts.contains_key(k) ==> end.accounts.contains_key(k)
    &&& forall|m: int| #[trigger] db.media.contains_key(m) ==> end.media.contains_key(m) && end.media[m] == db.media[m]
}

/// No request removes an account or removes or changes a medium.
pub proof fn lemma_serving_keeps(tmp: Seq<char>, db: Store, f: Flow, act: Action, end: Store, r: Reply, fuel: nat)
    requires
        serves(tmp, db, f, act, end, r, fuel),
    ensures
        keeps(db, end),
    decreases fuel,
{
    if let Action::Perform(q) = act {
        let (a, mid, out) = choose|a: Answer, mid: Store, out: (Flow, Action)| {
            &&& #[trigger] answers(db, q, a)
            &&& #[trigger] applies(db, q, mid)
            &&& #[trigger] moves(tmp, f, a, out)
            &&& serves(tmp, mid, out.0, out.1, end, r, (fuel - 1) as nat)
        };
        assert(keeps(db, mid));
        lemma_serving_keeps(tmp, mid, out.0, out.1, end, r, (fuel - 1) as nat);
    }
}

/// No handled request removes an account or removes or changes a medium.
pub proof fn lemma_handling_keeps(tmp: Seq<char>, db: Store, req: Request, end: Store, r: Reply)
    requires
        handles(tmp, db, req, end, r),
    ensures
        keeps(db, end),
{
    let (start, fuel) = choose|start: (Flow, Action), fuel: nat| #[trigger] begins(req, start) && #[trigger] serves(tmp, db, start.0, start.1, end, r, fuel);
    lemma_serving_keeps(tmp, db, start.0, start.1, end, r, fuel);
}

/// No sequence of requests removes an account or removes or changes a
/// medium.
pub proof fn lemma_session_keeps(tmp: Seq<char>, db: Store, reqs: Seq<Request>, replies: Seq<Reply>, end: Store)
    requires
        session(tmp, db, reqs, replies, end),
    ensures
        keeps(db, end),
    decreases reqs.len(),
{
    if reqs.len() > 0 {
        let mid = choose|mid: Store| #[trigger] handles(tmp, db, reqs[0], mid, replies[0])
            && session(tmp, mid, reqs.drop_first(), replies.drop_first(), end);
        lemma_handling_keeps(tmp, db, reqs[0], mid, replies[0]);
        lemma_session_keeps(tmp, mid, reqs.drop_first(), replies.drop_first(), end);
    }
}


/// The existence check answers whether the database holds the account,
/// and changes nothing.
pub proof fn lemma_check_answers_existence(tmp: Seq<char>, db: Store, u: Username, end: Store, r: Reply)
    requires
        handles(tmp, db, Request::Check(u), end, r),
    ensures
        end == db,
        r == Reply::Exists(db.accounts.contains_key(u.username@)),
{
    reveal_with_fuel(serves, 3);
}

/// A sign-up that answers with the account leaves the database holding an
/// account of that name.
pub proof fn lemma_add_stores_account(tmp: Seq<char>, db: Store, user: User, end: Store, r: Reply)
    requires
        handles(tmp, db, Request::Add(user), end, r),
        r is Account,
    ensures
        end.accounts.contains_key(user.username@),
{
    reveal_with_fuel(serves, 6);
}

/// A sign-up whose name no account has and whose e-mail address no
/// account uses goes through, whatever its password: it answers with the
/// new account's number and name, and the database holds the account with
/// the e-mail address and password given, logged out.
pub proof fn lemma_add_free(tmp: Seq<char>, db: Store, user: User, end: Store, r: Reply)
    requires
        handles(tmp, db, Request::Add(user), end, r),
        !db.accounts.contains_key(user.username@),
        !exists|k: Seq<char>| #[trigger] db.accounts.contains_key(k) && db.accounts[k].email == user.email@,
    ensures
        r matches Reply::Account { id: Some(i), username } && username@ == user.username@
            && i as int == end.accounts[user.username@].id,
        end.accounts.contains_key(user.username@),
        end.accounts[user.username@].email == user.email@,
        end.accounts[user.username@].password == user.password@,
        !end.accounts[user.username@].logged,
{
    reveal_with_fuel(serves, 6);
}

/// A sign-up is refused when the name is taken ("User already exists!") or,
/// the name being free, when the e-mail address is ("Email already
/// taken!"); nothing changes then.
pub proof fn lemma_add_taken(tmp: Seq<char>, db: Store, user: User, end: Store, r: Reply)
    requires
        handles(tmp, db, Request::Add(user), end, r),
    ensures
        db.accounts.contains_key(user.username@) ==> end == db && (r matches Reply::Failure(m) && m@ == Notice::UserTaken.words()),
        !db.accounts.contains_key(user.username@)
            && (exists|k: Seq<char>| #[trigger] db.accounts.contains_key(k) && db.accounts[k].email == user.email@)
            ==> end == db && (r matches Reply::Failure(m) && m@ == Notice::EmailTaken.words()),
{
    reveal_with_fuel(serves, 3);
}

/// A password change with the right current password stores the new one,
/// whatever it is, and says "Changed password successfully!"; a wrong
/// current password is refused with "Wrong Credentials!" and an unknown
/// account with "User does not exist!", changing nothing.
pub proof fn lemma_chpwd(tmp: Seq<char>, db: Store, c: Chpwd, end: Store, r: Reply)
    requires
        handles(tmp, db, Request::Chpwd(c), end, r),
    ensures
        db.accounts.contains_key(c.username@) && db.accounts[c.username@].password == c.oldpwd@ ==> {
            &&& end == (Store {
                accounts: db.accounts.insert(c.username@, (Row { password: c.newpwd@, ..db.accounts[c.username@] })),
                ..db
            })
            &&& r matches Reply::Note(m) && m@ == Notice::PasswordChanged.words()
        },
        db.accounts.contains_key(c.username@) && db.accounts[c.username@].password != c.oldpwd@ ==> {
            &&& end == db
            &&& r matches Reply::Failure(m) && m@ == Notice::WrongCredentials.words()
        },
        !db.accounts.contains_key(c.username@) ==> {
            &&& end == db
            &&& r matches Reply::Failure(m) && m@ == Notice::UnknownUser.words()
        },
{
    reveal_with_fuel(serves, 4);
}

/// An account added stays: after a sign-up that answered with the account
/// and any requests after it, the existence check of that name answers
/// "yes".
pub proof fn lemma_added_account_stays(
    tmp: Seq<char>,
    db0: Store,
    user: User,
    db1: Store,
    r1: Reply,
    reqs: Seq<Request>,
    replies: Seq<Reply>,
    db2: Store,
    u: Username,
    db3: Store,
    r: Reply,
)
    requires
        handles(tmp, db0, Request::Add(user), db1, r1),
        r1 is Account,
        session(tmp, db1, reqs, replies, db2),
        u.username@ == user.username@,
        handles(tmp, db2, Request::Check(u), db3, r),
    ensures
        r == Reply::Exists(true),
{
    lemma_add_stores_account(tmp, db0, user, db1, r1);
    lemma_session_keeps(tmp, db1, reqs, replies, db2);
    lemma_check_answers_existence(tmp, db2, u, db3, r);
}

/// A logout marks a known account as logged out and says so; an unknown
/// one is refused with "User does not exist!" and nothing changes.
pub proof fn lemma_logout(tmp: Seq<char>, db: Store, u: Username, end: Store, r: Reply)
    requires
        handles(tmp, db, Request::Logout(u), end, r),
    ensures
        db.accounts.contains_key(u.username@) ==> {
            &&& end == (Store {
                accounts: db.accounts.insert(u.username@, (Row { logged: false, ..db.accounts[u.username@] })),
                ..db
            })
            &&& r matches Reply::Note(m) && m@ == Notice::LoggedOut.words()
        },
        !db.accounts.contains_key(u.username@) ==> {
            &&& end == db
            &&& r matches Reply::Failure(m) && m@ == Notice::UnknownUser.words()
        },
{
    reveal_with_fuel(serves, 4);
}

/// Logging out twice is logging out once: the second logout of the same
/// name answers as the first did and changes nothing.
pub proof fn lemma_logout_twice(
    tmp: Seq<char>,
    db: Store,
    u: Username,
    db1: Store,
    r1: Reply,
    u2: Username,
    db2: Store,
    r2: Reply,
)
    requires
        handles(tmp, db, Request::Logout(u), db1, r1),
        u2.username@ == u.username@,
        handles(tmp, db1, Request::Logout(u2), db2, r2),
    ensures
        db2 == db1,
        r1 matches Reply::Note(m1) ==> (r2 matches Reply::Note(m2) && m2@ == m1@),
        r1 matches Reply::Failure(m1) ==> (r2 matches Reply::Failure(m2) && m2@ == m1@),
        r1 is Note || r1 is Failure,
{
    lemma_logout(tmp, db, u, db1, r1);
    lemma_logout(tmp, db1, u2, db2, r2);
    let n = u.username@;
    if db.accounts.contains_key(n) {
        assert(db1.accounts.contains_key(n));
        assert(db1.accounts.insert(n, Row { logged: false, ..db1.accounts[n] }) =~= db1.accounts);
    }
}

/// A login answers with the account exactly when the database holds it
/// with the password given, and then marks it as logged in; otherwise
/// nothing changes.
pub proof fn lemma_login(tmp: Seq<char>, db: Store, l: Login, end: Store, r: Reply)
    requires
        handles(tmp, db, Request::Login(l), end, r),
    ensures
        r is Account <==> db.accounts.contains_key(l.username@) && db.accounts[l.username@].password == l.password@,
        r is Account ==> end == (Store {
            accounts: db.accounts.insert(l.username@, (Row { logged: true, ..db.accounts[l.username@] })),
            ..db
        }),
        !(r is Account) ==> end == db,
{
    reveal_with_fuel(serves, 5);
}

/// The logged-in request answers the mark the database holds, and changes
/// nothing.
pub proof fn lemma_logged(tmp: Seq<char>, db: Store, u: Username, end: Store, r: Reply)
    requires
        handles(tmp, db, Request::Logged(u), end, r),
    ensures
        end == db,
        db.accounts.contains_key(u.username@) ==> r == Reply::Logged(db.accounts[u.username@].logged),
        !db.accounts.contains_key(u.username@) ==> (r matches Reply::Failure(m) && m@ == Notice::UnknownUser.words()),
{
    reveal_with_fuel(serves, 4);
}

/// The handler, from `f` about to take `act`, may still set the logged-in
/// mark of the account named `x`.
pub open spec fn may_mark(f: Flow, act: Action, x: Seq<char>) -> bool {
    ||| act matches Action::Perform(Query::SetLogged(n, _)) && n@ == x
    ||| f matches Flow::Login(LoginStage::AwaitName(req)) && req.username@ == x
    ||| f matches Flow::Login(LoginStage::AwaitAccount(req)) && req.username@ == x
    ||| f matches Flow::Logout(LogoutStage::AwaitName(n)) && n@ == x
}

/// A handler that may not set the mark of `x` leaves it as it was.
pub proof fn lemma_serving_keeps_mark(
    tmp: Seq<char>,
    db: Store,
    f: Flow,
    act: Action,
    end: Store,
    r: Reply,
    fuel: nat,
    x: Seq<char>,
)
    requires
        serves(tmp, db, f, act, end, r, fuel),
        !may_mark(f, act, x),
        db.accounts.contains_key(x),
    ensures
        end.accounts.contains_key(x),
        end.accounts[x].logged == db.accounts[x].logged,
    decreases fuel,
{
    if let Action::Perform(q) = act {
        let (a, mid, out) = choose|a: Answer, mid: Store, out: (Flow, Action)| {
            &&& #[trigger] answers(db, q, a)
            &&& #[trigger] applies(db, q, mid)
            &&& #[trigger] moves(tmp, f, a, out)
            &&& serves(tmp, mid, out.0, out.1, end, r, (fuel - 1) as nat)
        };
        assert(mid.accounts.contains_key(x) && mid.accounts[x].logged == db.accounts[x].logged);
        assert(!may_mark(out.0, out.1, x));
        lemma_serving_keeps_mark(tmp, mid, out.0, out.1, end, r, (fuel - 1) as nat, x);
    }
}

/// A request that is neither a login nor a logout of `x`.
pub open spec fn leaves_mark(req: Request, x: Seq<char>) -> bool {
    &&& req matches Request::Login(l) ==> l.username@ != x
    &&& req matches Request::Logout(u) ==> u.username@ != x
}

/// A login or logout of `x` that did not go through: the login did not
/// answer with the account, or the logout did not answer with its message.
pub open spec fn failed_attempt(req: Request, reply: Reply, x: Seq<char>) -> bool {
    ||| req matches Request::Login(l) && l.username@ == x && !(reply is Account)
    ||| req matches Request::Logout(u) && u.username@ == x && !(reply is Note)
}

/// A request that changes nothing of the mark of `x`: one that is not a
/// login or logout of `x`, or a login or logout of `x` that did not go
/// through.
pub open spec fn keeps_mark(req: Request, reply: Reply, x: Seq<char>) -> bool {
    leaves_mark(req, x) || failed_attempt(req, reply, x)
}

/// Requests that do not set the mark of `x`, or that tried and did not go
/// through, leave the mark as it was.
pub proof fn lemma_session_keeps_mark(
    tmp: Seq<char>,
    db: Store,
    reqs: Seq<Request>,
    replies: Seq<Reply>,
    end: Store,
    x: Seq<char>,
)
    requires
        session(tmp, db, reqs, replies, end),
        forall|i: int| 0 <= i < reqs.len() ==> keeps_mark(#[trigger] reqs[i], replies[i], x),
        db.accounts.contains_key(x),
    ensures
        end.accounts.contains_key(x),
        end.accounts[x].logged == db.accounts[x].logged,
    decreases reqs.len(),
{
    if reqs.len() > 0 {
        let mid = choose|mid: Store| #[trigger] handles(tmp, db, reqs[0], mid, replies[0])
            && session(tmp, mid, reqs.drop_first(), replies.drop_first(), end);
        assert(keeps_mark(reqs[0], replies[0], x));
        if leaves_mark(reqs[0], x) {
            let (start, fuel) = choose|start: (Flow, Action), fuel: nat| #[trigger] begins(reqs[0], start)
                && #[trigger] serves(tmp, db, start.0, start.1, mid, replies[0], fuel);
            assert(!may_mark(start.0, start.1, x));
            lemma_serving_keeps_mark(tmp, db, start.0, start.1, mid, replies[0], fuel, x);
        } else {
            match reqs[0] {
                Request::Login(l) => lemma_login(tmp, db, l, mid, replies[0]),
                Request::Logout(u) => lemma_logout(tmp, db, u, mid, replies[0]),
                _ => {},
            }
        }
        assert forall|i: int| 0 <= i < reqs.drop_first().len() implies keeps_mark(#[trigger] reqs.drop_first()[i], replies.drop_first()[i], x) by {
            assert(reqs.drop_first()[i] == reqs[i + 1]);
            assert(replies.drop_first()[i] == replies[i + 1]);
        }
        lemma_session_keeps_mark(tmp, mid, reqs.drop_first(), replies.drop_first(), end, x);
    }
}

/// The logged-in request shows the last login or logout of the name that
/// went through: after a login that answered with the account, and any
/// requests that do not log that name in or out (failed logins of it
/// among them), it answers "logged in".
pub proof fn lemma_logged_after_login(
    tmp: Seq<char>,
    db0: Store,
    l: Login,
    db1: Store,
    r1: Reply,
    reqs: Seq<Request>,
    replies: Seq<Reply>,
    db2: Store,
    u: Username,
    db3: Store,
    r: Reply,
)
    requires
        handles(tmp, db0, Request::Login(l), db1, r1),
        r1 is Account,
        session(tmp, db1, reqs, replies, db2),
        forall|i: int| 0 <= i < reqs.len() ==> keeps_mark(#[trigger] reqs[i], replies[i], l.username@),
        u.username@ == l.username@,
        handles(tmp, db2, Request::Logged(u), db3, r),
    ensures
        r == Reply::Logged(true),
{
    lemma_login(tmp, db0, l, db1, r1);
    assert(db1.accounts.contains_key(l.username@) && db1.accounts[l.username@].logged);
    lemma_session_keeps_mark(tmp, db1, reqs, replies, db2, l.username@);
    lemma_logged(tmp, db2, u, db3, r);
}

/// After a logout that answered with its message, and any requests that
/// do not log that name in or out (failed logins of it among them), the
/// logged-in request answers "logged out".
pub proof fn lemma_logged_after_logout(
    tmp: Seq<char>,
    db0: Store,
    u0: Username,
    db1: Store,
    r1: Reply,
    reqs: Seq<Request>,
    replies: Seq<Reply>,
    db2: Store,
    u: Username,
    db3: Store,
    r: Reply,
)
    requires
        handles(tmp, db0, Request::Logout(u0), db1, r1),
        r1 is Note,
        session(tmp, db1, reqs, replies, db2),
        forall|i: int| 0 <= i < reqs.len() ==> keeps_mark(#[trigger] reqs[i], replies[i], u0.username@),
        u.username@ == u0.username@,
        handles(tmp, db2, Request::Logged(u), db3, r),
    ensures
        r == Reply::Logged(false),
{
    lemma_logout(tmp, db0, u0, db1, r1);
    assert(db1.accounts.contains_key(u0.username@) && !db1.accounts[u0.username@].logged);
    lemma_session_keeps_mark(tmp, db1, reqs, replies, db2, u0.username@);
    lemma_logged(tmp, db2, u, db3, r);
}


/// The account and the format of a media request's stage.
pub open spec fn media_owner(f: Flow) -> (int, int) {
    match f {
        Flow::YtDl(s) => match s {
            YtStage::Checking(_, y) => (y.uid as int, y.format as int),
            YtStage::Fetching(_, y) => (y.uid as int, y.format as int),
            YtStage::AwaitFile(y, _, _) => (y.uid as int, y.format as int),
            YtStage::AwaitCleanup(y, _, _) => (y.uid as int, y.format as int),
            YtStage::AwaitInsert(y, _) => (y.uid as int, y.format as int),
            YtStage::AwaitMid(y, _) => (y.uid as int, y.format as int),
        },
        Flow::Convert(s) => match s {
            ConvertStage::Checking(_, up) => (up.uid as int, up.format as int),
            ConvertStage::Converting(_, u, fm) => (u as int, fm as int),
            ConvertStage::AwaitFile(u, fm, _) => (u as int, fm as int),
            ConvertStage::AwaitCleanup(u, fm, _, _) => (u as int, fm as int),
            ConvertStage::AwaitInsert(u, fm, _) => (u as int, fm as int),
            ConvertStage::AwaitMid(u, fm, _) => (u as int, fm as int),
        },
        _ => (0, 0),
    }
}

/// The account and the format of a media request that stores a medium.
pub open spec fn request_owner(req: Request) -> (int, int) {
    match req {
        Request::YtDl(y) => (y.uid as int, y.format as int),
        Request::Convert(up) => (up.uid as int, up.format as int),
        _ => (0, 0),
    }
}

/// The database holds at number `m` a medium of the account `uid`, named
/// `name`, in `format`.
pub open spec fn holds_medium(db: Store, m: int, uid: int, name: Seq<char>, format: int) -> bool {
    &&& db.media.contains_key(m)
    &&& db.media[m].uid == uid
    &&& db.media[m].name == name
    &&& db.media[m].format == format
}

/// What a storing request has done so far to the database: at the stage
/// that stores the medium, the statement stores it for the request's
/// account and format; at the stage that asks for its number, it is the
/// medium stored last.
pub open spec fn pending_store(f: Flow, act: Action, db: Store) -> bool {
    match f {
        Flow::YtDl(YtStage::AwaitInsert(_, n)) => {
            &&& act matches Action::Perform(Query::InsertMedia(u, _, n2, fm))
            &&& u as int == media_owner(f).0
            &&& n2 == n
            &&& fm as int == media_owner(f).1
        },
        Flow::Convert(ConvertStage::AwaitInsert(_, _, n)) => {
            &&& act matches Action::Perform(Query::InsertMedia(u, _, n2, fm))
            &&& u as int == media_owner(f).0
            &&& n2 == n
            &&& fm as int == media_owner(f).1
        },
        Flow::YtDl(YtStage::AwaitMid(_, n)) => {
            &&& act == Action::Perform(Query::LatestMid)
            &&& db.latest matches Some(m)
            &&& holds_medium(db, m, media_owner(f).0, n@, media_owner(f).1)
        },
        Flow::Convert(ConvertStage::AwaitMid(_, _, n)) => {
            &&& act == Action::Perform(Query::LatestMid)
            &&& db.latest matches Some(m)
            &&& holds_medium(db, m, media_owner(f).0, n@, media_owner(f).1)
        },
        _ => true,
    }
}

/// A video download or conversion that answers "stored under `mid` as
/// `filename`" has stored that medium for its account and format.
pub proof fn lemma_serving_stores(tmp: Seq<char>, db: Store, f: Flow, act: Action, end: Store, r: Reply, fuel: nat)
    requires
        serves(tmp, db, f, act, end, r, fuel),
        f is YtDl || f is Convert,
        act is Perform,
        pending_store(f, act, db),
    ensures
        r matches Reply::Stored { mid, filename, .. } ==> holds_medium(end, mid as int, media_owner(f).0, filename@, media_owner(f).1),
    decreases fuel,
{
    if let Action::Perform(q) = act {
        let (a, mid, out) = choose|a: Answer, mid: Store, out: (Flow, Action)| {
            &&& #[trigger] answers(db, q, a)
            &&& #[trigger] applies(db, q, mid)
            &&& #[trigger] moves(tmp, f, a, out)
            &&& serves(tmp, mid, out.0, out.1, end, r, (fuel - 1) as nat)
        };
        if out.1 is Perform {
            assert(out.0 is YtDl || out.0 is Convert);
            assert(media_owner(out.0) == media_owner(f));
            assert(pending_store(out.0, out.1, mid));
            lemma_serving_stores(tmp, mid, out.0, out.1, end, r, (fuel - 1) as nat);
        }
    }
}

/// A video download or conversion request that answers "stored under
/// `mid` as `filename`" leaves the database holding that medium for the
/// request's account and format.
pub proof fn lemma_stored_medium(tmp: Seq<char>, db: Store, req: Request, end: Store, r: Reply)
    requires
        handles(tmp, db, req, end, r),
        req is YtDl || req is Convert,
    ensures
        r matches Reply::Stored { mid, filename, .. } ==> holds_medium(end, mid as int, request_owner(req).0, filename@, request_owner(req).1),
{
    let (start, fuel) = choose|start: (Flow, Action), fuel: nat| #[trigger] begins(req, start)
        && #[trigger] serves(tmp, db, start.0, start.1, end, r, fuel);
    assert(media_owner(start.0) == request_owner(req));
    lemma_serving_stores(tmp, db, start.0, start.1, end, r, fuel);
}

/// A download of a stored medium changes nothing and answers: "User does
/// not exist!" for an unknown account number, "User is not logged in!" for
/// an account that is logged out, the medium's content when the account
/// owns it, and "Invalid mid!" otherwise.
pub proof fn lemma_download(tmp: Seq<char>, db: Store, d: Down, end: Store, r: Reply)
    requires
        handles(tmp, db, Request::Download(d), end, r),
        numbers_distinct(db),
    ensures
        end == db,
        !has_number(db, d.uid as int) ==> (r matches Reply::Failure(m) && m@ == Notice::UnknownUser.words()),
        forall|k: Seq<char>| #[trigger] numbered(db, d.uid as int, k) ==> {
            &&& !db.accounts[k].logged ==> (r matches Reply::Failure(m) && m@ == Notice::NotLoggedInToDownload.words())
            &&& db.accounts[k].logged && db.media.contains_key(d.mid as int) && db.media[d.mid as int].uid == d.uid as int
                ==> (r matches Reply::Binary(b) && b@ == db.media[d.mid as int].data)
            &&& db.accounts[k].logged && !(db.media.contains_key(d.mid as int) && db.media[d.mid as int].uid == d.uid as int)
                ==> (r matches Reply::Failure(m) && m@ == Notice::InvalidMid.words())
        },
{
    reveal_with_fuel(serves, 4);
}

/// A media listing changes nothing and answers, for a known account
/// number, each of the account's media once, under its position; for an
/// unknown one, "User does not exist!".
pub proof fn lemma_medialist(tmp: Seq<char>, db: Store, u: Uid, end: Store, r: Reply)
    requires
        handles(tmp, db, Request::Medialist(u), end, r),
    ensures
        end == db,
        has_number(db, u.uid as int) ==> (r matches Reply::MediaList(entries)
            && exists|rows: Seq<Media>| #[trigger] lists(rows, db, u.uid as int) && keyed_by_position(entries@, rows)),
        !has_number(db, u.uid as int) ==> (r matches Reply::Failure(m) && m@ == Notice::UnknownUser.words()),
{
    reveal_with_fuel(serves, 3);
}

/// What a download or a conversion stored is given back: after it answered
/// "stored under `mid`", and any requests after it, a download of `mid`
/// by its account, logged in, answers the stored content.
pub proof fn lemma_stored_then_downloaded(
    tmp: Seq<char>,
    db0: Store,
    req: Request,
    db1: Store,
    r1: Reply,
    reqs: Seq<Request>,
    replies: Seq<Reply>,
    db2: Store,
    k: Seq<char>,
    d: Down,
    db3: Store,
    r: Reply,
)
    requires
        req is YtDl || req is Convert,
        handles(tmp, db0, req, db1, r1),
        r1 matches Reply::Stored { mid, .. } && mid == d.mid,
        d.uid as int == request_owner(req).0,
        session(tmp, db1, reqs, replies, db2),
        numbers_distinct(db2),
        numbered(db2, d.uid as int, k),
        db2.accounts[k].logged,
        handles(tmp, db2, Request::Download(d), db3, r),
    ensures
        db1.media.contains_key(d.mid as int),
        r matches Reply::Binary(b) && b@ == db1.media[d.mid as int].data,
{
    lemma_stored_medium(tmp, db0, req, db1, r1);
    lemma_session_keeps(tmp, db1, reqs, replies, db2);
    lemma_download(tmp, db2, d, db3, r);
}

/// What a download or a conversion stored is listed: after it answered
/// "stored under `mid` as `filename`", and any requests after it, the
/// media listing of its account holds that medium under that name.
pub proof fn lemma_stored_then_listed(
    tmp: Seq<char>,
    db0: Store,
    req: Request,
    db1: Store,
    r1: Reply,
    reqs: Seq<Request>,
    replies: Seq<Reply>,
    db2: Store,
    u: Uid,
    db3: Store,
    r: Reply,
)
    requires
        req is YtDl || req is Convert,
        handles(tmp, db0, req, db1, r1),
        r1 is Stored,
        u.uid as int == request_owner(req).0,
        session(tmp, db1, reqs, replies, db2),
        has_number(db2, u.uid as int),
        handles(tmp, db2, Request::Medialist(u), db3, r),
    ensures
        r matches Reply::MediaList(entries) && exists|i: int| 0 <= i < entries@.len()
            && (#[trigger] entries@[i]).1.mid == r1->Stored_mid
            && entries@[i].1.mname@ == r1->Stored_filename@,
{
    lemma_stored_medium(tmp, db0, req, db1, r1);
    lemma_session_keeps(tmp, db1, reqs, replies, db2);
    lemma_medialist(tmp, db2, u, db3, r);
    let m = r1->Stored_mid as int;
    assert(db2.media.contains_key(m) && db2.media[m].uid == u.uid as int);
    let entries = r->MediaList_0;
    let rows = choose|rows: Seq<Media>| #[trigger] lists(rows, db2, u.uid as int) && keyed_by_position(entries@, rows);
    let i = choose|i: int| 0 <= i < rows.len() && (#[trigger] rows[i]).mid as int == m;
    assert(entries@[i].1 == rows[i]);
}

} // verus!
