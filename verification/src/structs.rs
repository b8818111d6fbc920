//! The records that requests carry and that the database holds.

use vstd::prelude::*;

verus! {

/// A new account: name, e-mail address and password.
#[derive(Debug, Clone, PartialEq)]
pub struct User {
    pub username: String,
    pub email: String,
    pub password: String,
}

/// Login credentials; `id` is the account's number once it is known.
#[derive(Debug, Clone, PartialEq)]
pub struct Login {
    pub id: Option<i32>,
    pub username: String,
    pub password: String,
}

/// A request that names an account.
#[derive(Debug, Clone, PartialEq)]
pub struct Username {
    pub username: String,
}

/// A password change: the account, its current password and the new one.
#[derive(Debug, Clone, PartialEq)]
pub struct Chpwd {
    pub username: String,
    pub oldpwd: String,
    pub newpwd: String,
}

/// Where the service listens, how it reaches its database and where it
/// keeps temporary files.
#[derive(Debug, Clone, PartialEq)]
pub struct Config {
    pub ip: String,
    pub port: u16,
    pub sqladd: String,
    pub sqlusr: String,
    pub sqlpwd: String,
    pub sqlprt: u16,
    pub sqldab: String,
    pub tmppath: String,
}

/// A download request: the account, the video's address and the format
/// wanted (1 audio only, 2 video only, 3 both).
#[derive(Debug, Clone, PartialEq)]
pub struct Yt {
    pub uid: i32,
    pub uri: String,
    pub format: i32,
}

/// A stored medium as listed to its owner.
#[derive(Debug, Clone, PartialEq)]
pub struct Media {
    pub mid: i32,
    pub mname: String,
    pub mformat: i32,
}

impl Media {
    /// A copy of the row.
    pub fn duplicate(&self) -> (m: Media)
        ensures
            m == *self,
    {
        Media { mid: self.mid, mname: self.mname.clone(), mformat: self.mformat }
    }
}

/// A request that names an account by number.
#[derive(Debug, Clone, PartialEq)]
pub struct Uid {
    pub uid: i32,
}

/// A request for one stored medium of an account.
#[derive(Debug, Clone, PartialEq)]
pub struct Down {
    pub uid: i32,
    pub mid: i32,
}

/// An uploaded file to convert: where the upload was stored (if that path
/// is text), the file name that the client gave (if it gave one), the
/// format wanted and the account.
#[derive(Debug, Clone, PartialEq)]
pub struct FileUpload {
    pub file_path: Option<String>,
    pub file_name: Option<String>,
    pub format: i32,
    pub uid: i32,
}

} // verus!
