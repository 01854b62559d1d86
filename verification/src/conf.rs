//! The policy an administrator configures: a default command, the ordered
//! allowlist, and the file that audit lines go to.

use vstd::prelude::*;

verus! {

/// One entry of the allowlist.
#[derive(Clone, Debug, PartialEq, Eq)]
pub struct CommandOption {
    /// The path of the executable. A request matches the entry when its
    /// resolved path equals this text exactly.
    pub executable: String,
    /// Where present, the arguments that replace those of the request.
    pub force_arguments: Option<Vec<String>>,
}

/// The policy of one gatekeeper.
#[derive(Clone, Debug, PartialEq, Eq)]
pub struct Config {
    /// The command that is run where the session asked for none.
    pub default_command: Option<String>,
    /// The allowlist. The order counts: the first entry that matches governs.
    pub allowed_commands: Vec<CommandOption>,
    /// The file that audit lines are appended to. Nothing is logged without it.
    pub log_file: Option<String>,
}

/// What a `CommandOption` holds, as plain text.
pub struct AllowlistEntry {
    pub executable: Seq<char>,
    pub force_arguments: Option<Seq<Seq<char>>>,
}

/// What a `Config` holds, as plain text.
pub struct Policy {
    pub default_command: Option<Seq<char>>,
    pub allowed_commands: Seq<AllowlistEntry>,
    pub log_file: Option<Seq<char>>,
}

impl View for CommandOption {
    type V = AllowlistEntry;

    open spec fn view(&self) -> AllowlistEntry {
        AllowlistEntry {
            executable: self.executable@,
            force_arguments: match self.force_arguments {
                Some(arguments) => Some(arguments.deep_view()),
                None => None,
            },
        }
    }
}

impl View for Config {
    type V = Policy;

    open spec fn view(&self) -> Policy {
        Policy {
            default_command: match self.default_command {
                Some(command) => Some(command@),
                None => None,
            },
            allowed_commands: Seq::new(
                self.allowed_commands@.len(),
                |i: int| self.allowed_commands@[i]@,
            ),
            log_file: match self.log_file {
                Some(path) => Some(path@),
                None => None,
            },
        }
    }
}

impl Policy {
    /// Whether audit records are written at all.
    pub open spec fn logging(self) -> bool {
        self.log_file is Some
    }

    /// Whether entry `i` is the one that governs `path`: it names `path`, and
    /// no entry before it does.
    pub open spec fn governs(self, i: int, path: Seq<char>) -> bool {
        &&& 0 <= i < self.allowed_commands.len()
        &&& self.allowed_commands[i].executable == path
        &&& forall|j: int| 0 <= j < i ==> (#[trigger] self.allowed_commands[j]).executable != path
    }

    /// Whether no entry names `path`.
    pub open spec fn rejects(self, path: Seq<char>) -> bool {
        forall|j: int|
            0 <= j < self.allowed_commands.len() ==> (#[trigger] self.allowed_commands[j]).executable
                != path
    }

    /// The index of the entry that governs `path`, if any entry names it.
    pub open spec fn first_match(self, path: Seq<char>) -> Option<int> {
        if self.rejects(path) {
            None
        } else {
            Some(choose|i: int| self.governs(i, path))
        }
    }
}

impl Policy {
    /// Among the entries up to `k` that name `path` there is a first one.
    proof fn lemma_least_match(self, path: Seq<char>, k: int)
        requires
            0 <= k < self.allowed_commands.len(),
            self.allowed_commands[k].executable == path,
        ensures
            exists|i: int| self.governs(i, path),
        decreases k,
    {
        if exists|j: int| 0 <= j < k && (#[trigger] self.allowed_commands[j]).executable == path {
            let j = choose|j: int|
                0 <= j < k && (#[trigger] self.allowed_commands[j]).executable == path;
            self.lemma_least_match(path, j);
        } else {
            assert(self.governs(k, path));
        }
    }

    /// `first_match` is the one entry that governs `path`, and is `None`
    /// exactly where no entry names `path`.
    pub proof fn lemma_first_match(self, path: Seq<char>)
        ensures
            match self.first_match(path) {
                Some(i) => self.governs(i, path),
                None => self.rejects(path),
            },
            forall|i: int| self.governs(i, path) ==> self.first_match(path) == Some(i),
    {
        if !self.rejects(path) {
            let k = choose|k: int|
                0 <= k < self.allowed_commands.len() && (#[trigger] self.allowed_commands[k]).executable
                    == path;
            self.lemma_least_match(path, k);
            let m = choose|i: int| self.governs(i, path);
            assert forall|i: int| self.governs(i, path) implies i == m by {}
        }
    }
}

impl Config {
    /// The index of the first entry of the allowlist whose executable is
    /// `path`, or `None` where no entry names `path`.
    pub fn first_match(&self, path: &String) -> (found: Option<usize>)
        ensures
            match found {
                Some(i) => self@.governs(i as int, path@) && self@.first_match(path@) == Some(
                    i as int,
                ),
                None => self@.rejects(path@) && self@.first_match(path@) is None,
            },
    {
        let mut i: usize = 0;
        while i < self.allowed_commands.len()
            invariant
                i <= self.allowed_commands@.len(),
                forall|j: int| 0 <= j < i ==> (#[trigger] self@.allowed_commands[j]).executable != path@,
            decreases self.allowed_commands@.len() - i,
        {
            if self.allowed_commands[i].executable == *path {
                proof {
                    assert(self@.governs(i as int, path@));
                    self@.lemma_first_match(path@);
                }
                return Some(i);
            }
            i += 1;
        }
        None
    }
}

} // verus!
