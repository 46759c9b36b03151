//! The environment a prompt is rendered in, and what it says about the user.

use vstd::prelude::*;

verus! {

/// The operating-system family, which names the user variable.
#[derive(Clone, Copy, Debug, PartialEq, Eq, Structural)]
pub enum Platform {
    Unix,
    Windows,
}

/// An environment variable: its name and its value, or `None` where the value is set
/// but is not valid text.
pub type EnvEntry = (Seq<char>, Option<Seq<char>>);

/// The environment variables a prompt sees, read-only, and the platform.
pub struct Context {
    vars: Vec<(String, Option<String>)>,
    platform: Platform,
}

/// The environment entries, in the order they were set.
pub open spec fn entry_views(v: Seq<(String, Option<String>)>) -> Seq<EnvEntry> {
    v.map_values(
        |e: (String, Option<String>)|
            (
                e.0@,
                match e.1 {
                    Some(s) => Some(s@),
                    None => None,
                },
            ),
    )
}

/// The entry set last under `name`: `None` if it is not set at all.
pub open spec fn env_entry(vars: Seq<EnvEntry>, name: Seq<char>) -> Option<Option<Seq<char>>>
    decreases vars.len(),
{
    if vars.len() == 0 {
        None
    } else if vars.last().0 == name {
        Some(vars.last().1)
    } else {
        env_entry(vars.drop_last(), name)
    }
}

/// The text value of `name`, if it is set to valid text.
pub open spec fn env_text(vars: Seq<EnvEntry>, name: Seq<char>) -> Option<Seq<char>> {
    match env_entry(vars, name) {
        Some(Some(v)) => Some(v),
        _ => None,
    }
}

/// Whether `name` is set to something other than the empty text.
pub open spec fn env_non_empty(vars: Seq<EnvEntry>, name: Seq<char>) -> bool {
    match env_entry(vars, name) {
        Some(Some(v)) => v.len() > 0,
        Some(None) => true,
        None => false,
    }
}

/// The name of the variable that holds the user name on a platform.
pub open spec fn username_var(p: Platform) -> Seq<char> {
    match p {
        Platform::Unix => "USER"@,
        Platform::Windows => "USERNAME"@,
    }
}

/// The user is the logged-in one: `LOGNAME` is missing, or names the same user.
pub open spec fn login_user(vars: Seq<EnvEntry>, username: Seq<char>) -> bool {
    match env_text(vars, "LOGNAME"@) {
        None => true,
        Some(l) => l == username,
    }
}

/// The prompt runs in an SSH session: one of the SSH variables is set and not empty.
pub open spec fn ssh_session(vars: Seq<EnvEntry>) -> bool {
    env_non_empty(vars, "SSH_CONNECTION"@) || env_non_empty(vars, "SSH_CLIENT"@)
        || env_non_empty(vars, "SSH_TTY"@)
}

impl View for Context {
    type V = (Seq<EnvEntry>, Platform);

    closed spec fn view(&self) -> (Seq<EnvEntry>, Platform) {
        (entry_views(self.vars@), self.platform)
    }
}

impl Context {
    /// A context with no environment variables.
    pub fn new(platform: Platform) -> (r: Context)
        ensures
            r@ == (Seq::<EnvEntry>::empty(), platform),
    {
        let r = Context { vars: Vec::new(), platform };
        assert(entry_views(r.vars@) =~= Seq::<EnvEntry>::empty());
        r
    }

    /// This context with `name` set to `value`.
    pub fn env(self, name: &str, value: &str) -> (r: Context)
        ensures
            r@ == (self@.0.push((name@, Some(value@))), self@.1),
    {
        self.with_entry(name.to_owned(), Some(value.to_owned()))
    }

    /// This context with `name` set to a value that is not valid text.
    pub fn env_unreadable(self, name: &str) -> (r: Context)
        ensures
            r@ == (self@.0.push((name@, None)), self@.1),
    {
        self.with_entry(name.to_owned(), None)
    }

    fn with_entry(self, name: String, value: Option<String>) -> (r: Context)
        ensures
            r@ == (
                self@.0.push(
                    (
                        name@,
                        match value {
                            Some(s) => Some(s@),
                            None => None,
                        },
                    ),
                ),
                self@.1,
            ),
    {
        let mut vars = self.vars;
        let ghost before = vars@;
        vars.push((name, value));
        assert(entry_views(vars@) =~= entry_views(before).push(entry_views(vars@).last()));
        Context { vars, platform: self.platform }
    }

    /// The platform.
    pub fn platform(&self) -> (r: Platform)
        ensures
            r == self@.1,
    {
        self.platform
    }

    /// The index of the entry set last under `name`, if any.
    fn find(&self, name: &str) -> (r: Option<usize>)
        ensures
            match r {
                None => env_entry(self@.0, name@) is None,
                Some(i) => i < self.vars@.len() && env_entry(self@.0, name@) == Some(
                    self@.0[i as int].1,
                ),
            },
    {
        let key = name.to_owned();
        let mut i: usize = self.vars.len();
        assert(self@.0.take(i as int) =~= self@.0);
        while i > 0
            invariant
                i <= self.vars@.len(),
                key@ == name@,
                env_entry(self@.0, name@) == env_entry(self@.0.take(i as int), name@),
            decreases i,
        {
            let ghost t = self@.0.take(i as int);
            assert(t.drop_last() =~= self@.0.take(i as int - 1));
            if self.vars[i - 1].0 == key {
                return Some(i - 1);
            }
            i = i - 1;
        }
        None
    }

    /// The value of `name`, where it is set to valid text.
    pub fn get_env(&self, name: &str) -> (r: Option<String>)
        ensures
            match r {
                Some(s) => env_text(self@.0, name@) == Some(s@),
                None => env_text(self@.0, name@) is None,
            },
    {
        match self.find(name) {
            None => None,
            Some(i) => match &self.vars[i].1 {
                Some(v) => Some(v.clone()),
                None => None,
            },
        }
    }

    /// Whether `name` is set to something other than the empty text; a value that is not
    /// valid text counts as set.
    pub fn has_non_empty_env(&self, name: &str) -> (r: bool)
        ensures
            r == env_non_empty(self@.0, name@),
    {
        match self.find(name) {
            None => false,
            Some(i) => match &self.vars[i].1 {
                Some(v) => !v.as_str().is_empty(),
                None => true,
            },
        }
    }
}

} // verus!
