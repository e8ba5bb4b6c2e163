//! The saved login token, kept in `~/.abrasive/credentials.toml` under
//! `[abrasive] token`.
use vstd::prelude::*;
use vstd::string::*;
use crate::paths::{path_join, spec_join};

verus! {

/// The credentials file, as far as rargo reads it.
#[derive(Debug, Clone, PartialEq, Eq)]
pub struct Credentials {
    pub abrasive: Option<CredentialsTable>,
}

/// The `[abrasive]` table of the credentials file.
#[derive(Debug, Clone, PartialEq, Eq)]
pub struct CredentialsTable {
    pub token: Option<String>,
}

/// The token in a credentials file, if the file could be read and parsed and
/// holds one.
pub open spec fn spec_saved_token(credentials: Option<Credentials>) -> Option<String> {
    match credentials {
        Some(c) => match c.abrasive {
            Some(t) => t.token,
            None => None,
        },
        None => None,
    }
}

/// The saved token, from the credentials file as read and parsed (`None`
/// when it could not be).
pub fn saved_token(credentials: Option<Credentials>) -> (r: Option<String>)
    ensures
        r == spec_saved_token(credentials),
{
    let c = credentials?;
    let table = c.abrasive?;
    table.token
}

/// The home directory: `HOME` when it is set, else `USERPROFILE`.
pub open spec fn spec_home(home: Option<String>, userprofile: Option<String>) -> Option<String> {
    match home {
        Some(h) => Some(h),
        None => userprofile,
    }
}

/// `HOME` wins whenever it is set, whatever `USERPROFILE` holds;
/// `USERPROFILE` is used only when `HOME` is not set; with neither there is
/// no home directory.
pub proof fn lemma_home_choice(h: String, u: Option<String>)
    ensures
        spec_home(Some(h), u) == Some(h),
        spec_home(None, u) == u,
        spec_home(None, None) is None,
{
}

/// Where the credentials file is, given the values of the `HOME` and
/// `USERPROFILE` variables: `.abrasive/credentials.toml` in the home
/// directory; nothing when neither is set.
pub fn credentials_path(home: Option<String>, userprofile: Option<String>) -> (r: Option<String>)
    ensures
        match spec_home(home, userprofile) {
            None => r is None,
            Some(h) => r matches Some(p) && p@ == spec_join(
                spec_join(h@, ".abrasive"@),
                "credentials.toml"@,
            ),
        },
        home matches Some(h) ==> (r matches Some(p) && p@ == spec_join(
            spec_join(h@, ".abrasive"@),
            "credentials.toml"@,
        )),
        home is None ==> (userprofile matches Some(u) ==> (r matches Some(p) && p@ == spec_join(
            spec_join(u@, ".abrasive"@),
            "credentials.toml"@,
        ))),
        (home is None && userprofile is None) ==> r is None,
{
    let h = match home {
        Some(h) => h,
        None => userprofile?,
    };
    let dir = path_join(h.as_str(), ".abrasive");
    Some(path_join(dir.as_str(), "credentials.toml"))
}

} // verus!
