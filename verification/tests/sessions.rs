use std::collections::BTreeMap;

use mediaportal_api::config::fallback_config;
use mediaportal_api::flow::{advance, begin, Request};
use mediaportal_api::protocol::{Action, Answer, Query, Reply};
use mediaportal_api::structs::{Down, Login, Media, Uid, User, Username, Yt};

#[derive(Clone, Debug, PartialEq)]
struct Row {
    id: i32,
    email: String,
    password: String,
    logged: bool,
}

#[derive(Clone, Debug, PartialEq)]
struct Medium {
    uid: i32,
    data: Vec<u8>,
    name: String,
    format: i32,
}

/// A table of accounts and one of media that answer truthfully; the file
/// system and the tools are stood in for: a download yields one file.
#[derive(Clone, Debug, PartialEq, Default)]
struct Db {
    rows: BTreeMap<String, Row>,
    next_id: i32,
    media: BTreeMap<i32, Medium>,
    latest: Option<i32>,
}

impl Db {
    fn run(&mut self, q: Query) -> Answer {
        match q {
            Query::NameExists(n) => Answer::Flag(self.rows.contains_key(&n)),
            Query::EmailExists(e) => Answer::Flag(self.rows.values().any(|r| r.email == e)),
            Query::LoggedByName(n) => Answer::Flag(self.rows[&n].logged),
            Query::FetchAccount(n) => Answer::Account(self.rows.get(&n).map(|r| Login {
                id: Some(r.id),
                username: n.clone(),
                password: r.password.clone(),
            })),
            Query::SetLogged(n, b) => {
                if let Some(r) = self.rows.get_mut(&n) {
                    r.logged = b;
                }
                Answer::Done
            },
            Query::SetPassword(n, p) => {
                if let Some(r) = self.rows.get_mut(&n) {
                    r.password = p;
                }
                Answer::Done
            },
            Query::InsertUser(u) => {
                if !self.rows.contains_key(&u.username) {
                    self.next_id += 1;
                    let row = Row { id: self.next_id, email: u.email, password: u.password, logged: false };
                    self.rows.insert(u.username, row);
                }
                Answer::Done
            },
            Query::UidExists(u) => Answer::Flag(self.rows.values().any(|r| r.id == u)),
            Query::LoggedByUid(u) => Answer::Flag(self.rows.values().find(|r| r.id == u).unwrap().logged),
            Query::ListMedia(u) => Answer::Media(
                self.media
                    .iter()
                    .filter(|(_, m)| m.uid == u)
                    .map(|(mid, m)| Media { mid: *mid, mname: m.name.clone(), mformat: m.format })
                    .collect(),
            ),
            Query::FetchMedia(u, mid) => {
                Answer::Blob(self.media.get(&mid).filter(|m| m.uid == u).map(|m| m.data.clone()))
            },
            Query::InsertMedia(uid, data, name, format) => {
                let mid = self.media.len() as i32 + 100;
                self.media.insert(mid, Medium { uid, data, name, format });
                self.latest = Some(mid);
                Answer::Done
            },
            Query::LatestMid => Answer::Mid(self.latest.unwrap()),
            Query::MakeDir(_) | Query::RunYtDlp(_, _, _) | Query::RemoveDir(_) | Query::DrawAgain => Answer::Done,
            Query::ListNames(_) => Answer::Names(vec![]),
            Query::ListPaths(dir) => Answer::Names(vec![format!("{}/Clip – One.mp3", dir)]),
            Query::ReadFile(_) => Answer::Bytes(vec![7, 8, 9]),
            other => panic!("not modelled here: {:?}", other),
        }
    }

    fn handle(&mut self, req: Request) -> Reply {
        let (mut flow, mut action) = begin(req);
        loop {
            match action {
                Action::Respond(r) => return r,
                Action::Perform(q) => {
                    let a = self.run(q);
                    assert!(flow.can_take(&a));
                    let (f, act) = advance(&fallback_config(), flow, a);
                    flow = f;
                    action = act;
                },
            }
        }
    }
}

fn s(x: &str) -> String {
    x.to_string()
}

fn name(x: &str) -> Username {
    Username { username: s(x) }
}

fn add(db: &mut Db, n: &str, pwd: &str) -> Reply {
    db.handle(Request::Add(User { username: s(n), email: format!("{}@example.com", n), password: s(pwd) }))
}

fn login(db: &mut Db, n: &str, pwd: &str) -> Reply {
    db.handle(Request::Login(Login { id: None, username: s(n), password: s(pwd) }))
}

#[test]
fn logged_shows_last_login_or_logout() {
    let mut db = Db::default();
    assert_eq!(add(&mut db, "ann", "pw"), Reply::Account { id: Some(1), username: s("ann") });
    assert_eq!(add(&mut db, "bob", "pw2"), Reply::Account { id: Some(2), username: s("bob") });
    assert_eq!(db.handle(Request::Logged(name("ann"))), Reply::Logged(false));
    assert_eq!(login(&mut db, "ann", "pw"), Reply::Account { id: Some(1), username: s("ann") });
    assert_eq!(login(&mut db, "bob", "pw2"), Reply::Account { id: Some(2), username: s("bob") });
    assert_eq!(db.handle(Request::Logout(name("bob"))), Reply::Note(s("Successfully logged out!")));
    assert_eq!(db.handle(Request::Check(name("bob"))), Reply::Exists(true));
    assert_eq!(db.handle(Request::Logged(name("ann"))), Reply::Logged(true));
    assert_eq!(db.handle(Request::Logout(name("ann"))), Reply::Note(s("Successfully logged out!")));
    assert_eq!(db.handle(Request::Logged(name("ann"))), Reply::Logged(false));
}

#[test]
fn failed_login_after_login_keeps_mark() {
    let mut db = Db::default();
    add(&mut db, "ann", "pw");
    login(&mut db, "ann", "pw");
    assert_eq!(login(&mut db, "ann", "typo"), Reply::Failure(s("Wrong Credentials!")));
    assert_eq!(db.handle(Request::Logged(name("ann"))), Reply::Logged(true));
}

#[test]
fn stored_medium_is_given_back() {
    let mut db = Db::default();
    add(&mut db, "ann", "pw");
    login(&mut db, "ann", "pw");
    let r = db.handle(Request::YtDl(Yt { uid: 1, uri: s("https://youtu.be/x"), format: 1 }));
    let mid = match r {
        Reply::Stored { mid, message, filename } => {
            assert_eq!(message, "Successfully downloaded https://youtu.be/x");
            assert_eq!(filename, "Clip  One.mp3");
            mid
        },
        other => panic!("unexpected {:?}", other),
    };
    add(&mut db, "bob", "pw2");
    db.handle(Request::Logout(name("bob")));
    assert_eq!(db.handle(Request::Download(Down { uid: 1, mid })), Reply::Binary(vec![7, 8, 9]));
    assert_eq!(db.handle(Request::Download(Down { uid: 2, mid })), Reply::Failure(s("User is not logged in!")));
    match db.handle(Request::Medialist(Uid { uid: 1 })) {
        Reply::MediaList(entries) => {
            assert_eq!(entries, vec![(s("0"), Media { mid, mname: s("Clip  One.mp3"), mformat: 1 })]);
        },
        other => panic!("unexpected {:?}", other),
    }
    db.handle(Request::Logout(name("ann")));
    assert_eq!(db.handle(Request::Download(Down { uid: 1, mid })), Reply::Failure(s("User is not logged in!")));
}

#[test]
fn wrong_password_leaves_mark() {
    let mut db = Db::default();
    add(&mut db, "ann", "pw");
    let before = db.clone();
    assert_eq!(login(&mut db, "ann", "nope"), Reply::Failure(s("Wrong Credentials!")));
    assert_eq!(db, before);
    assert_eq!(db.handle(Request::Logged(name("ann"))), Reply::Logged(false));
}

#[test]
fn logout_twice_is_logout_once() {
    let mut db = Db::default();
    add(&mut db, "ann", "pw");
    login(&mut db, "ann", "pw");
    let r1 = db.handle(Request::Logout(name("ann")));
    let after_first = db.clone();
    let r2 = db.handle(Request::Logout(name("ann")));
    assert_eq!(r1, r2);
    assert_eq!(db, after_first);
    let r3 = db.handle(Request::Logout(name("zed")));
    let r4 = db.handle(Request::Logout(name("zed")));
    assert_eq!(r3, Reply::Failure(s("User does not exist!")));
    assert_eq!(r3, r4);
    assert_eq!(db, after_first);
}

#[test]
fn added_account_stays() {
    let mut db = Db::default();
    add(&mut db, "ann", "pw");
    login(&mut db, "ann", "pw");
    assert_eq!(add(&mut db, "ann", "other"), Reply::Failure(s("User already exists!")));
    db.handle(Request::Logout(name("ann")));
    assert_eq!(db.handle(Request::Check(name("ann"))), Reply::Exists(true));
    assert_eq!(db.handle(Request::Check(name("bob"))), Reply::Exists(false));
}
