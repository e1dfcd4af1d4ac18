//! The command builder: accumulates a resolved binary, its arguments, an
//! optional working directory and environment overrides, without touching the
//! operating system.

use vstd::prelude::*;
use crate::error::Error;
use crate::lookup::adjusted_name;
use crate::lookup::execstring_of;
use crate::lookup::family_of;
use crate::lookup::join_path;
use crate::lookup::Binary;
use crate::lookup::Shell;
use crate::lookup::ShellFamily;
use crate::platform::Platform;
use crate::text::ends_with;
use crate::text::file_name_of;
use crate::text::seq_views;
use crate::text::split_chars;
use crate::text::str_eq;

verus! {

/// The environment-override mapping that a sequence of `(key, value)` pairs
/// stands for: later pairs win over earlier ones with the same key.
pub open spec fn env_map_of(s: Seq<(String, String)>) -> Map<Seq<char>, Seq<char>>
    decreases s.len(),
{
    if s.len() == 0 {
        Map::empty()
    } else {
        env_map_of(s.drop_last()).insert(s.last().0@, s.last().1@)
    }
}

/// Whether no two pairs share a key.
pub open spec fn keys_unique(s: Seq<(String, String)>) -> bool {
    forall|i: int, j: int|
        0 <= i < j < s.len() ==> (#[trigger] s[i]).0@ != (#[trigger] s[j]).0@
}

/// The pairs of `s` whose key is not `k`, in order.
pub open spec fn remove_key(s: Seq<(String, String)>, k: Seq<char>) -> Seq<(String, String)>
    decreases s.len(),
{
    if s.len() == 0 {
        s
    } else {
        let p = remove_key(s.drop_last(), k);
        if s.last().0@ == k {
            p
        } else {
            p.push(s.last())
        }
    }
}

proof fn lemma_remove_key(s: Seq<(String, String)>, k: Seq<char>)
    ensures
        env_map_of(remove_key(s, k)) == env_map_of(s).remove(k),
        forall|i: int|
            0 <= i < remove_key(s, k).len() ==> (#[trigger] remove_key(s, k)[i]).0@ != k,
        forall|i: int|
            0 <= i < remove_key(s, k).len() ==> exists|j: int|
                0 <= j < s.len() && (#[trigger] remove_key(s, k)[i]) == s[j],
        keys_unique(s) ==> keys_unique(remove_key(s, k)),
    decreases s.len(),
{
    if s.len() == 0 {
        assert(env_map_of(remove_key(s, k)) =~= env_map_of(s).remove(k));
    } else {
        let d = s.drop_last();
        lemma_remove_key(d, k);
        let p = remove_key(d, k);
        assert(forall|j: int| 0 <= j < d.len() ==> d[j] == s[j]);
        if s.last().0@ == k {
            assert(env_map_of(remove_key(s, k)) =~= env_map_of(s).remove(k));
        } else {
            assert(p.push(s.last()).drop_last() =~= p);
            assert(env_map_of(p.push(s.last())) == env_map_of(p).insert(s.last().0@, s.last().1@));
            assert(env_map_of(remove_key(s, k)) =~= env_map_of(s).remove(k));
            assert(forall|i: int|
                0 <= i < p.push(s.last()).len() ==> exists|j: int|
                    0 <= j < s.len() && (#[trigger] p.push(s.last())[i]) == s[j]) by {
                assert(forall|i: int|
                    0 <= i < p.len() ==> exists|j: int| 0 <= j < s.len() && #[trigger] p[i]
                        == s[j]);
                assert(p.push(s.last())[p.len() as int] == s[s.len() - 1]);
            }
            if keys_unique(s) {
                assert(keys_unique(d));
                assert forall|i: int, j: int|
                    0 <= i < j < p.push(s.last()).len() implies (#[trigger] p.push(s.last())[i]).0@
                    != (#[trigger] p.push(s.last())[j]).0@ by {
                    if j < p.len() {
                        assert(p[i].0@ != p[j].0@);
                    } else {
                        let m = choose|m: int| 0 <= m < d.len() && p[i] == d[m];
                        assert(s[m].0@ != s[s.len() - 1].0@);
                    }
                }
            }
        }
    }
}

/// A child executor builder: the command specification that a spawn consumes.
#[derive(Debug)]
pub struct ExecBuilder {
    /// The resolved binary to run.
    binary: Binary,
    /// The argument strings, in order.
    args: Vec<String>,
    /// The working directory for the child, if one was set.
    pwd: Option<String>,
    /// The environment overrides, applied in order: the last write to a key
    /// wins, and no two entries share a key.
    envs: Vec<(String, String)>,
}

impl ExecBuilder {
    /// The characters of the resolved binary's path.
    pub closed spec fn binary_chars(&self) -> Seq<char> {
        self.binary@
    }

    /// The argument strings, as character sequences.
    pub closed spec fn arg_views(&self) -> Seq<Seq<char>> {
        seq_views(self.args@)
    }

    /// The working directory, if one was set.
    pub closed spec fn pwd_chars(&self) -> Option<Seq<char>> {
        match self.pwd {
            Some(p) => Some(p@),
            None => None,
        }
    }

    /// The environment-override entries, in the order they are applied.
    pub closed spec fn env_entries(&self) -> Seq<(String, String)> {
        self.envs@
    }

    /// The environment-override mapping.
    pub closed spec fn env_view(&self) -> Map<Seq<char>, Seq<char>> {
        env_map_of(self.envs@)
    }

    /// No two environment entries share a key.
    pub closed spec fn wf(&self) -> bool {
        keys_unique(self.envs@)
    }

    /// Creates a new builder for `binary` (requires a valid path; does not
    /// search the executable search path for `binary`).
    pub fn with_path(binary: &str, args: Vec<String>) -> (r: Result<ExecBuilder, Error>)
        ensures
            r matches Ok(b) ==> ({
                &&& b.binary_chars() == binary@
                &&& b.arg_views() == seq_views(args@)
                &&& b.pwd_chars() is None
                &&& b.env_view() == Map::<Seq<char>, Seq<char>>::empty()
                &&& b.wf()
            }),
            r matches Err(e) ==> e.kind is PathError && e.message@ == "Binary does not exist: "@
                + binary@,
    {
        match Binary::new(binary) {
            Ok(resolved) => Ok(
                ExecBuilder { binary: resolved, args, pwd: None, envs: Vec::new() },
            ),
            Err(e) => Err(e),
        }
    }

    /// Looks for `binary` in the directory list `path_list` and creates a new
    /// builder.
    pub fn with_name(binary: &str, args: Vec<String>, path_list: &str) -> (r: Result<
        ExecBuilder,
        Error,
    >)
        ensures
            r matches Ok(b) ==> ({
                &&& ends_with(b.binary_chars(), adjusted_name(Platform::Unix, binary@))
                &&& b.arg_views() == seq_views(args@)
                &&& b.pwd_chars() is None
                &&& b.env_view() == Map::<Seq<char>, Seq<char>>::empty()
                &&& b.wf()
            }),
            r matches Err(e) ==> e.kind is PathError && e.message@
                == "Failed to find binary in PATH: "@ + adjusted_name(Platform::Unix, binary@),
    {
        match Binary::find(binary, path_list) {
            Ok(resolved) => Ok(
                ExecBuilder { binary: resolved, args, pwd: None, envs: Vec::new() },
            ),
            Err(e) => Err(e),
        }
    }

    /// Returns a new shell-executed command: the resolved shell runs
    /// `command` as a single string, behind the shell's execute-string
    /// arguments. `preferred` is the value of the shell-preference variable,
    /// if it was readable; `path_list` is the executable search path.
    pub fn with_shell(command: &str, preferred: Option<&str>, path_list: &str) -> (r: Result<
        ExecBuilder,
        Error,
    >)
        ensures
            r matches Ok(b) ==> ({
                &&& exists|f: ShellFamily|
                    b.arg_views() == (#[trigger] execstring_of(f)).push(command@)
                &&& b.pwd_chars() is None
                &&& b.env_view() == Map::<Seq<char>, Seq<char>>::empty()
                &&& b.wf()
            }),
            preferred matches Some(p) ==> (r matches Ok(b) ==> b.binary_chars() == p@ && (
            family_of(file_name_of(p@)) matches Some(f) && b.arg_views() == execstring_of(f).push(
                command@,
            ))),
            preferred is None ==> (r matches Ok(b) ==> b.arg_views() == execstring_of(
                ShellFamily::Sh,
            ).push(command@) && ends_with(b.binary_chars(), "sh"@) && (exists|i: int|
                0 <= i < split_chars(path_list@, ':').len() && b.binary_chars() == join_path(
                    #[trigger] split_chars(path_list@, ':')[i],
                    "sh"@,
                ))),
            preferred matches Some(p) ==> (family_of(file_name_of(p@)) is None ==> r is Err),
            r matches Err(e) ==> e.kind is PathError,
    {
        let shell = match Shell::find(preferred, path_list) {
            Ok(s) => s,
            Err(e) => { return Err(e) },
        };
        let mut args = match shell.execstring_args() {
            Ok(a) => a,
            Err(e) => { return Err(e) },
        };
        let ghost family = shell.family()->0;
        args.push(String::from_str(command));
        proof {
            assert(seq_views(args@) =~= execstring_of(family).push(command@));
        }
        ExecBuilder::with_path(shell.path().as_str(), args)
    }

    /// Sets the process working dir for the child.
    pub fn set_pwd(self, pwd: &str) -> (r: ExecBuilder)
        ensures
            r.binary_chars() == self.binary_chars(),
            r.arg_views() == self.arg_views(),
            r.pwd_chars() == Some(pwd@),
            r.env_entries() == self.env_entries(),
            r.env_view() == self.env_view(),
            r.wf() == self.wf(),
    {
        ExecBuilder { pwd: Some(String::from_str(pwd)), ..self }
    }

    /// Sets a single environment variable for the child. A later write to
    /// the same key replaces an earlier one.
    pub fn set_env(self, key: &str, value: &str) -> (r: ExecBuilder)
        requires
            self.wf(),
        ensures
            r.binary_chars() == self.binary_chars(),
            r.arg_views() == self.arg_views(),
            r.pwd_chars() == self.pwd_chars(),
            r.env_view() == self.env_view().insert(key@, value@),
            r.wf(),
    {
        let mut kept: Vec<(String, String)> = Vec::new();
        let mut i: usize = 0;
        proof {
            assert(self.envs@.take(0) =~= Seq::<(String, String)>::empty());
            assert(kept@ =~= remove_key(self.envs@.take(0), key@));
        }
        while i < self.envs.len()
            invariant
                i <= self.envs.len(),
                kept@ == remove_key(self.envs@.take(i as int), key@),
            decreases self.envs.len() - i,
        {
            let pair = &self.envs[i];
            let keep = !str_eq(pair.0.as_str(), key);
            proof {
                assert(self.envs@.take(i + 1).drop_last() =~= self.envs@.take(i as int));
                assert(self.envs@.take(i + 1).last() == self.envs@[i as int]);
            }
            if keep {
                kept.push((pair.0.clone(), pair.1.clone()));
            }
            i = i + 1;
        }
        proof {
            assert(self.envs@.take(self.envs@.len() as int) =~= self.envs@);
            lemma_remove_key(self.envs@, key@);
        }
        let mut envs = kept;
        envs.push((String::from_str(key), String::from_str(value)));
        proof {
            assert(envs@.drop_last() =~= remove_key(self.envs@, key@));
            assert(env_map_of(envs@) == env_map_of(remove_key(self.envs@, key@)).insert(
                key@,
                value@,
            ));
            assert(env_map_of(envs@) =~= env_map_of(self.envs@).insert(key@, value@));
            assert forall|a: int, b: int| 0 <= a < b < envs@.len() implies (#[trigger] envs@[a]).0@
                != (#[trigger] envs@[b]).0@ by {
                if b < envs@.len() - 1 {
                    assert(remove_key(self.envs@, key@)[a].0@ != remove_key(
                        self.envs@,
                        key@,
                    )[b].0@);
                } else {
                    assert(remove_key(self.envs@, key@)[a].0@ != key@);
                }
            }
        }
        ExecBuilder { envs, ..self }
    }

    /// Sets environment variables for the child in bulk, with the same
    /// last-write-wins rule.
    pub fn set_envs(self, envs: Vec<(String, String)>) -> (r: ExecBuilder)
        requires
            self.wf(),
        ensures
            r.binary_chars() == self.binary_chars(),
            r.arg_views() == self.arg_views(),
            r.pwd_chars() == self.pwd_chars(),
            r.env_view() == self.env_view().union_prefer_right(env_map_of(envs@)),
            r.wf(),
    {
        let ghost m0 = self.env_view();
        let mut b = self;
        let mut i: usize = 0;
        proof {
            assert(envs@.take(0) =~= Seq::<(String, String)>::empty());
            assert(m0.union_prefer_right(env_map_of(envs@.take(0))) =~= m0);
        }
        while i < envs.len()
            invariant
                i <= envs.len(),
                b.wf(),
                b.binary_chars() == self.binary_chars(),
                b.arg_views() == self.arg_views(),
                b.pwd_chars() == self.pwd_chars(),
                b.env_view() == m0.union_prefer_right(env_map_of(envs@.take(i as int))),
            decreases envs.len() - i,
        {
            let pair = &envs[i];
            b = b.set_env(pair.0.as_str(), pair.1.as_str());
            proof {
                assert(envs@.take(i + 1).drop_last() =~= envs@.take(i as int));
                assert(envs@.take(i + 1).last() == envs@[i as int]);
                assert(m0.union_prefer_right(env_map_of(envs@.take(i as int))).insert(
                    envs@[i as int].0@,
                    envs@[i as int].1@,
                ) =~= m0.union_prefer_right(env_map_of(envs@.take(i + 1))));
            }
            i = i + 1;
        }
        proof {
            assert(envs@.take(envs@.len() as int) =~= envs@);
        }
        b
    }

    /// The path of the resolved binary.
    pub fn binary_path(&self) -> (r: &String)
        ensures
            r@ == self.binary_chars(),
    {
        self.binary.path()
    }

    /// The argument strings, in order.
    pub fn args(&self) -> (r: &Vec<String>)
        ensures
            seq_views(r@) == self.arg_views(),
    {
        &self.args
    }

    /// The working directory, if one was set.
    pub fn pwd(&self) -> (r: Option<&String>)
        ensures
            match r {
                Some(p) => self.pwd_chars() == Some(p@),
                None => self.pwd_chars() is None,
            },
    {
        match &self.pwd {
            Some(p) => Some(p),
            None => None,
        }
    }

    /// The environment-override entries, in the order they are applied: the
    /// mapping they stand for is the builder's environment view.
    pub fn envs(&self) -> (r: &Vec<(String, String)>)
        ensures
            r@ == self.env_entries(),
            env_map_of(r@) == self.env_view(),
    {
        &self.envs
    }
}

} // verus!
