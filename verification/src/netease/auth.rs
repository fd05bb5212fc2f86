//! The login session: the `MUSIC_U` cookie.

use vstd::prelude::*;
use vstd::string::StringExecFns;

verus! {

/// A login session.
#[derive(Debug)]
pub struct Session {
    /// The value of the `MUSIC_U` cookie.
    pub music_u: Option<String>,
}

/// What stands before the cookie's value in the `Cookie` header.
pub open spec fn cookie_prefix() -> Seq<char> {
    "os=pc; __remember_me=true; MUSIC_U="@
}

impl Default for Session {
    /// A session without a cookie.
    fn default() -> (s: Session)
        ensures
            s.music_u is None,
    {
        Session { music_u: None }
    }
}

impl Session {
    /// The value of the `Cookie` header: the fixed fields, then the cookie.
    /// `None` where no cookie is set.
    pub fn cookie_header(&self) -> (header: Option<String>)
        ensures
            match self.music_u {
                Some(music_u) => header matches Some(h) && h@ == cookie_prefix() + music_u@,
                None => header is None,
            },
    {
        match &self.music_u {
            Some(music_u) => {
                let mut header = String::from_str("os=pc; __remember_me=true; MUSIC_U=");
                header.append(music_u.as_str());
                Some(header)
            },
            None => None,
        }
    }

    /// Whether a cookie is set and not empty. The cookie is not validated.
    pub fn is_logged_in(&self) -> (b: bool)
        ensures
            b == (self.music_u matches Some(music_u) && music_u@.len() > 0),
    {
        match &self.music_u {
            Some(music_u) => !music_u.as_str().is_empty(),
            None => false,
        }
    }
}

} // verus!
