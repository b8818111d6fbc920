//! What a request handler asks of the world around it, what it hears
//! back, and what it finally answers.

use vstd::prelude::*;
use crate::structs::{Login, Media, User};

verus! {

/// A piece of outside work: a database statement, a file-system operation
/// or a run of an external tool.
#[derive(Debug, PartialEq)]
pub enum Query {
    /// Is there an account with this name?
    NameExists(String),
    /// Is there an account with this e-mail address?
    EmailExists(String),
    /// Is there an account with this number?
    UidExists(i32),
    /// Is the account with this name marked as logged in?
    LoggedByName(String),
    /// Is the account with this number marked as logged in?
    LoggedByUid(i32),
    /// Number, name and password of the account with this name.
    FetchAccount(String),
    /// Mark the account with this name as logged in or out.
    SetLogged(String, bool),
    /// Store a new account.
    InsertUser(User),
    /// Set the password of the account with this name.
    SetPassword(String, String),
    /// The media of the account with this number.
    ListMedia(i32),
    /// The content of one medium of one account: account, medium.
    FetchMedia(i32, i32),
    /// Store a medium: account, content, name, format.
    InsertMedia(i32, Vec<u8>, String, i32),
    /// The number of the medium stored last.
    LatestMid,
    /// Create a directory and its parents.
    MakeDir(String),
    /// The names of the entries of a directory.
    ListNames(String),
    /// The paths of the entries of a directory.
    ListPaths(String),
    /// Run `yt-dlp` with these options on this address, saving to this
    /// location.
    RunYtDlp(Vec<String>, String, String),
    /// Run `ffmpeg` with these arguments.
    RunFfmpeg(Vec<String>),
    /// The bytes of a file.
    ReadFile(String),
    /// Remove a directory and all it holds.
    RemoveDir(String),
    /// Nothing to do outside: hand control back so that the handler draws
    /// another temporary name against the listing it already has.
    DrawAgain,
}

/// The outcome of a piece of outside work.
#[derive(Debug, PartialEq)]
pub enum Answer {
    /// A yes or no.
    Flag(bool),
    /// An account's row, if there is one.
    Account(Option<Login>),
    /// Work done, nothing to hand back.
    Done,
    /// Rows of media.
    Media(Vec<Media>),
    /// A medium's content, if there is one.
    Blob(Option<Vec<u8>>),
    /// Directory entries.
    Names(Vec<String>),
    /// A file's bytes.
    Bytes(Vec<u8>),
    /// A medium's number.
    Mid(i32),
    /// The work failed, for this reason.
    Failed(String),
}

/// What a request is finally answered.
#[derive(Debug, PartialEq)]
pub enum Reply {
    /// Success: the account's number and name.
    Account { id: Option<i32>, username: String },
    /// Success with a message.
    Note(String),
    /// Success: whether the account is logged in.
    Logged(bool),
    /// Success: whether the account exists.
    Exists(bool),
    /// Success: the media of an account, each under its position.
    MediaList(Vec<(String, Media)>),
    /// Success: a medium's content.
    Binary(Vec<u8>),
    /// Success: a medium was stored under this number.
    Stored { mid: i32, message: String, filename: String },
    /// The request failed, with this message.
    Failure(String),
}

/// The next thing a handler does.
#[derive(Debug, PartialEq)]
pub enum Action {
    Perform(Query),
    Respond(Reply),
}

/// One move of a part of a handler: ask the world and wait in stage `S`,
/// or finish with the result `R`.
pub enum Step<S, R> {
    Ask(S, Query),
    Finish(R),
}

/// The kind of answer that a handler waits for.
#[derive(Debug, Clone, Copy, PartialEq, Eq, Structural)]
pub enum Expect {
    /// `Flag` or `Failed`.
    Flag,
    /// `Account` or `Failed`.
    Account,
    /// `Done` or `Failed`.
    Done,
    /// `Media` or `Failed`.
    Media,
    /// `Blob` or `Failed`.
    Blob,
    /// `Names` or `Failed`.
    Names,
    /// `Names` with at least one entry.
    SomeNames,
    /// `Bytes` or `Failed`.
    Bytes,
    /// `Mid` or `Failed`.
    Mid,
    /// `Done` alone: no outside work was asked for.
    Proceed,
    /// Nothing: the handler has answered.
    Nothing,
}

/// The kind of answer that the outside work `q` gives.
pub open spec fn answers_to(q: Query) -> Expect {
    match q {
        Query::NameExists(_) | Query::EmailExists(_) | Query::UidExists(_)
        | Query::LoggedByName(_) | Query::LoggedByUid(_) => Expect::Flag,
        Query::FetchAccount(_) => Expect::Account,
        Query::ListMedia(_) => Expect::Media,
        Query::FetchMedia(_, _) => Expect::Blob,
        Query::LatestMid => Expect::Mid,
        Query::ListNames(_) => Expect::Names,
        Query::ListPaths(_) => Expect::SomeNames,
        Query::ReadFile(_) => Expect::Bytes,
        Query::SetLogged(_, _) | Query::InsertUser(_) | Query::SetPassword(_, _)
        | Query::InsertMedia(_, _, _, _) | Query::MakeDir(_) | Query::RunYtDlp(_, _, _)
        | Query::RunFfmpeg(_) | Query::RemoveDir(_) => Expect::Done,
        Query::DrawAgain => Expect::Proceed,
    }
}

/// Whether `a` is an answer of the kind `e`.
pub open spec fn answer_fits(e: Expect, a: Answer) -> bool {
    match e {
        Expect::Flag => a is Flag || a is Failed,
        Expect::Account => a is Account || a is Failed,
        Expect::Done => a is Done || a is Failed,
        Expect::Media => a is Media || a is Failed,
        Expect::Blob => a is Blob || a is Failed,
        Expect::Names => a is Names || a is Failed,
        Expect::SomeNames => a matches Answer::Names(v) && v@.len() > 0,
        Expect::Bytes => a is Bytes || a is Failed,
        Expect::Mid => a is Mid || a is Failed,
        Expect::Proceed => a is Done,
        Expect::Nothing => false,
    }
}

/// Tells whether `a` is an answer of the kind `e`.
pub fn fits(e: Expect, a: &Answer) -> (b: bool)
    ensures
        b == answer_fits(e, *a),
{
    match (e, a) {
        (_, Answer::Failed(_)) => e != Expect::SomeNames && e != Expect::Proceed && e != Expect::Nothing,
        (Expect::Flag, Answer::Flag(_)) => true,
        (Expect::Account, Answer::Account(_)) => true,
        (Expect::Done, Answer::Done) => true,
        (Expect::Media, Answer::Media(_)) => true,
        (Expect::Blob, Answer::Blob(_)) => true,
        (Expect::Names, Answer::Names(_)) => true,
        (Expect::SomeNames, Answer::Names(v)) => v.len() > 0,
        (Expect::Bytes, Answer::Bytes(_)) => true,
        (Expect::Mid, Answer::Mid(_)) => true,
        (Expect::Proceed, Answer::Done) => true,
        _ => false,
    }
}

/// The fixed messages of the service.
#[derive(Debug, Clone, Copy, PartialEq, Eq, Structural)]
pub enum Notice {
    WrongCredentials,
    UnknownUser,
    UserTaken,
    EmailTaken,
    NotLoggedIn,
    NotLoggedInToDownload,
    InvalidMid,
    InvalidFormat,
    DownloadFailed,
    ConversionFailed,
    AccountVanished,
    LoggedOut,
    PasswordChanged,
}

impl Notice {
    /// The text of the message.
    pub open spec fn words(self) -> Seq<char> {
        match self {
            Notice::WrongCredentials => "Wrong Credentials!"@,
            Notice::UnknownUser => "User does not exist!"@,
            Notice::UserTaken => "User already exists!"@,
            Notice::EmailTaken => "Email already taken!"@,
            Notice::NotLoggedIn => "User is not logged in"@,
            Notice::NotLoggedInToDownload => "User is not logged in!"@,
            Notice::InvalidMid => "Invalid mid!"@,
            Notice::InvalidFormat => "Supplied invalid format"@,
            Notice::DownloadFailed => "Failed to download video; Verify URL"@,
            Notice::ConversionFailed => "Failed to convert media; Check format / content!"@,
            Notice::AccountVanished => "User does not exist? Database magic broke"@,
            Notice::LoggedOut => "Successfully logged out!"@,
            Notice::PasswordChanged => "Changed password successfully!"@,
        }
    }

    /// The text of the message, as a string.
    pub fn text(&self) -> (s: String)
        ensures
            s@ == self.words(),
    {
        match self {
            Notice::WrongCredentials => String::from_str("Wrong Credentials!"),
            Notice::UnknownUser => String::from_str("User does not exist!"),
            Notice::UserTaken => String::from_str("User already exists!"),
            Notice::EmailTaken => String::from_str("Email already taken!"),
            Notice::NotLoggedIn => String::from_str("User is not logged in"),
            Notice::NotLoggedInToDownload => String::from_str("User is not logged in!"),
            Notice::InvalidMid => String::from_str("Invalid mid!"),
            Notice::InvalidFormat => String::from_str("Supplied invalid format"),
            Notice::DownloadFailed => String::from_str("Failed to download video; Verify URL"),
            Notice::ConversionFailed => String::from_str("Failed to convert media; Check format / content!"),
            Notice::AccountVanished => String::from_str("User does not exist? Database magic broke"),
            Notice::LoggedOut => String::from_str("Successfully logged out!"),
            Notice::PasswordChanged => String::from_str("Changed password successfully!"),
        }
    }
}

/// `r` answers with a failure whose message is `words`.
pub open spec fn finishes_failing<S>(r: Step<S, Reply>, words: Seq<char>) -> bool {
    r matches Step::Finish(Reply::Failure(m)) && m@ == words
}

/// Answers with a failure whose message is one of the fixed ones.
pub fn refuse<S>(n: Notice) -> (r: Step<S, Reply>)
    ensures
        finishes_failing(r, n.words()),
{
    Step::Finish(Reply::Failure(n.text()))
}

/// `prefix` followed by `reason`.
pub fn prefixed(prefix: &str, reason: &str) -> (s: String)
    ensures
        s@ == prefix@ + reason@,
{
    let mut s = String::from_str(prefix);
    s.append(reason);
    s
}

} // verus!
