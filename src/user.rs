//! Operator accounts.
use vstd::prelude::*;

verus! {

/// What an operator may do.
#[derive(Debug, Clone, Copy, PartialEq, Eq, Structural)]
pub enum UserPurview {
    UserManager,
    SysSetting,
    Programs,
    Run,
}

/// An operator: name, password, creation time in seconds, and rights.
#[derive(Debug, Clone)]
pub struct UserConfig {
    pub name: String,
    pub pwd: String,
    pub created_at: u64,
    pub purview: Vec<UserPurview>,
}

impl UserConfig {
    /// An operator created at `created_at`.
    pub fn new(name: String, pwd: String, purview: Vec<UserPurview>, created_at: u64) -> (r:
        UserConfig)
        ensures
            r.name@ == name@,
            r.pwd@ == pwd@,
            r.created_at == created_at,
            r.purview@ == purview@,
    {
        UserConfig { name, pwd, created_at, purview }
    }

    /// Whether `pwd` is this operator's password. An empty password never matches.
    pub fn check_pwd(&self, pwd: String) -> (r: bool)
        ensures
            r == (self.pwd@.len() > 0 && self.pwd@ == pwd@),
    {
        if self.pwd.as_str().is_empty() {
            return false;
        }
        self.pwd == pwd
    }
}

impl Default for UserConfig {
    /// The built-in administrator with every right.
    fn default() -> (r: UserConfig)
        ensures
            r.name@ == "root"@,
            r.pwd@ == "9600"@,
            r.created_at == 0,
            r.purview@ == seq![
                UserPurview::UserManager,
                UserPurview::SysSetting,
                UserPurview::Programs,
                UserPurview::Run,
            ],
    {
        proof {
            reveal_strlit("root");
            reveal_strlit("9600");
        }
        let purview = vec![
            UserPurview::UserManager,
            UserPurview::SysSetting,
            UserPurview::Programs,
            UserPurview::Run,
        ];
        proof {
            assert(purview@ =~= seq![
                UserPurview::UserManager,
                UserPurview::SysSetting,
                UserPurview::Programs,
                UserPurview::Run,
            ]);
        }
        UserConfig { name: "root".to_string(), pwd: "9600".to_string(), created_at: 0, purview }
    }
}

} // verus!
