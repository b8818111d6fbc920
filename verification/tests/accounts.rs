use mediaportal_api::config::fallback_config;
use mediaportal_api::flow::{advance, begin, Flow, Request};
use mediaportal_api::protocol::{fits, Action, Answer, Query, Reply};
use mediaportal_api::structs::{Chpwd, Login, User, Username};

fn step(flow: Flow, a: Answer) -> (Flow, Action) {
    assert!(flow.can_take(&a));
    advance(&fallback_config(), flow, a)
}

fn s(x: &str) -> String {
    x.to_string()
}

fn login(name: &str, pwd: &str) -> Request {
    Request::Login(Login { id: None, username: s(name), password: s(pwd) })
}

fn row(id: i32, name: &str, pwd: &str) -> Login {
    Login { id: Some(id), username: s(name), password: s(pwd) }
}

#[test]
fn login_with_right_password() {
    let (f, a) = begin(login("ann", "pw"));
    assert_eq!(a, Action::Perform(Query::NameExists(s("ann"))));
    let (f, a) = step(f, Answer::Flag(true));
    assert_eq!(a, Action::Perform(Query::FetchAccount(s("ann"))));
    let (f, a) = step(f, Answer::Account(Some(row(7, "ann", "pw"))));
    assert_eq!(a, Action::Perform(Query::SetLogged(s("ann"), true)));
    let (f, a) = step(f, Answer::Done);
    assert_eq!(a, Action::Respond(Reply::Account { id: Some(7), username: s("ann") }));
    assert!(matches!(f, Flow::Finished));
}

#[test]
fn login_with_wrong_password() {
    let (f, _) = begin(login("ann", "pw"));
    let (f, _) = step(f, Answer::Flag(true));
    let (_, a) = step(f, Answer::Account(Some(row(7, "ann", "other"))));
    assert_eq!(a, Action::Respond(Reply::Failure(s("Wrong Credentials!"))));
}

#[test]
fn login_of_unknown_user() {
    let (f, _) = begin(login("bob", "pw"));
    let (_, a) = step(f, Answer::Flag(false));
    assert_eq!(a, Action::Respond(Reply::Failure(s("Wrong Credentials!"))));
}

#[test]
fn login_without_row() {
    let (f, _) = begin(login("bob", "pw"));
    let (f, _) = step(f, Answer::Flag(true));
    let (_, a) = step(f, Answer::Account(None));
    assert_eq!(a, Action::Respond(Reply::Failure(s("Wrong Credentials!"))));
}

#[test]
fn login_database_error() {
    let (f, _) = begin(login("ann", "pw"));
    let (f, _) = step(f, Answer::Flag(true));
    let (f, _) = step(f, Answer::Account(Some(row(7, "ann", "pw"))));
    let (_, a) = step(f, Answer::Failed(s("Table locked")));
    assert_eq!(a, Action::Respond(Reply::Failure(s("Table locked"))));
}

#[test]
fn logout_known_user() {
    let (f, a) = begin(Request::Logout(Username { username: s("ann") }));
    assert_eq!(a, Action::Perform(Query::NameExists(s("ann"))));
    let (f, a) = step(f, Answer::Flag(true));
    assert_eq!(a, Action::Perform(Query::SetLogged(s("ann"), false)));
    let (_, a) = step(f, Answer::Done);
    assert_eq!(a, Action::Respond(Reply::Note(s("Successfully logged out!"))));
}

#[test]
fn logout_unknown_user() {
    let (f, _) = begin(Request::Logout(Username { username: s("zed") }));
    let (_, a) = step(f, Answer::Flag(false));
    assert_eq!(a, Action::Respond(Reply::Failure(s("User does not exist!"))));
}

#[test]
fn logged_state_is_read() {
    let (f, a) = begin(Request::Logged(Username { username: s("ann") }));
    assert_eq!(a, Action::Perform(Query::NameExists(s("ann"))));
    let (f, a) = step(f, Answer::Flag(true));
    assert_eq!(a, Action::Perform(Query::LoggedByName(s("ann"))));
    let (_, a) = step(f, Answer::Flag(true));
    assert_eq!(a, Action::Respond(Reply::Logged(true)));
}

#[test]
fn logged_unknown_user() {
    let (f, _) = begin(Request::Logged(Username { username: s("zed") }));
    let (_, a) = step(f, Answer::Flag(false));
    assert_eq!(a, Action::Respond(Reply::Failure(s("User does not exist!"))));
}

fn user() -> User {
    User { username: s("ann"), email: s("ann@example.com"), password: s("pw") }
}

#[test]
fn add_new_user() {
    let (f, a) = begin(Request::Add(user()));
    assert_eq!(a, Action::Perform(Query::NameExists(s("ann"))));
    let (f, a) = step(f, Answer::Flag(false));
    assert_eq!(a, Action::Perform(Query::EmailExists(s("ann@example.com"))));
    let (f, a) = step(f, Answer::Flag(false));
    assert_eq!(a, Action::Perform(Query::InsertUser(user())));
    let (f, a) = step(f, Answer::Done);
    assert_eq!(a, Action::Perform(Query::FetchAccount(s("ann"))));
    let (_, a) = step(f, Answer::Account(Some(row(3, "ann", "pw"))));
    assert_eq!(a, Action::Respond(Reply::Account { id: Some(3), username: s("ann") }));
}

#[test]
fn add_taken_name() {
    let (f, _) = begin(Request::Add(user()));
    let (_, a) = step(f, Answer::Flag(true));
    assert_eq!(a, Action::Respond(Reply::Failure(s("User already exists!"))));
}

#[test]
fn add_taken_email() {
    let (f, _) = begin(Request::Add(user()));
    let (f, _) = step(f, Answer::Flag(false));
    let (_, a) = step(f, Answer::Flag(true));
    assert_eq!(a, Action::Respond(Reply::Failure(s("Email already taken!"))));
}

#[test]
fn add_row_vanished() {
    let (f, _) = begin(Request::Add(user()));
    let (f, _) = step(f, Answer::Flag(false));
    let (f, _) = step(f, Answer::Flag(false));
    let (f, _) = step(f, Answer::Done);
    let (_, a) = step(f, Answer::Account(None));
    assert_eq!(a, Action::Respond(Reply::Failure(s("User does not exist? Database magic broke"))));
}

#[test]
fn check_answers_existence() {
    let (f, a) = begin(Request::Check(Username { username: s("ann") }));
    assert_eq!(a, Action::Perform(Query::NameExists(s("ann"))));
    let (f2, a) = step(f, Answer::Flag(false));
    assert_eq!(a, Action::Respond(Reply::Exists(false)));
    assert!(matches!(f2, Flow::Finished));
    let (f, _) = begin(Request::Check(Username { username: s("ann") }));
    let (_, a) = step(f, Answer::Failed(s("Connection failed: timeout")));
    assert_eq!(a, Action::Respond(Reply::Failure(s("Connection failed: timeout"))));
}

fn chpwd(old: &str) -> Request {
    Request::Chpwd(Chpwd { username: s("ann"), oldpwd: s(old), newpwd: s("new") })
}

#[test]
fn chpwd_with_right_password() {
    let (f, _) = begin(chpwd("pw"));
    let (f, a) = step(f, Answer::Flag(true));
    assert_eq!(a, Action::Perform(Query::FetchAccount(s("ann"))));
    let (f, a) = step(f, Answer::Account(Some(row(1, "ann", "pw"))));
    assert_eq!(a, Action::Perform(Query::SetPassword(s("ann"), s("new"))));
    let (_, a) = step(f, Answer::Done);
    assert_eq!(a, Action::Respond(Reply::Note(s("Changed password successfully!"))));
}

#[test]
fn chpwd_with_wrong_password() {
    let (f, _) = begin(chpwd("nope"));
    let (f, _) = step(f, Answer::Flag(true));
    let (_, a) = step(f, Answer::Account(Some(row(1, "ann", "pw"))));
    assert_eq!(a, Action::Respond(Reply::Failure(s("Wrong Credentials!"))));
}

#[test]
fn chpwd_unknown_user() {
    let (f, _) = begin(chpwd("pw"));
    let (_, a) = step(f, Answer::Flag(false));
    assert_eq!(a, Action::Respond(Reply::Failure(s("User does not exist!"))));
}

#[test]
fn finished_flow_expects_nothing() {
    let (f, _) = begin(chpwd("pw"));
    let (f, _) = step(f, Answer::Flag(false));
    assert!(!fits(f.expecting(), &Answer::Done));
    assert!(!fits(f.expecting(), &Answer::Failed(s("x"))));
}
