//! Finding a binary by path or by searching the executable search path, and
//! resolving the command shell together with its execute-string arguments.

use vstd::prelude::*;
use std::path::Path;
use crate::error::Error;
use crate::platform::Platform;
use crate::text::ends_with;
use crate::text::ends_with_str;
use crate::text::file_name;
use crate::text::file_name_of;
use crate::text::lemma_file_name_after_separator;
use crate::text::lemma_file_name_no_separator;
use crate::text::seq_views;
use crate::text::split_chars;
use crate::text::split_on;
use crate::text::str_eq;

verus! {

/// Relies on `std::path::Path::is_file`: whether the path names an existing
/// regular file. The answer depends on the file system, so nothing is
/// promised of it.
#[verifier::external_body]
fn path_is_file(path: &str) -> bool {
    Path::new(path).is_file()
}

/// Relies on `std::path::Path::exists`: whether the path names an existing
/// file-system entry. The answer depends on the file system, so nothing is
/// promised of it.
#[verifier::external_body]
fn path_exists(path: &str) -> bool {
    Path::new(path).exists()
}

/// The platform-adjusted file name of a binary: Windows-like systems want an
/// `.exe` suffix appended unless it is already there; elsewhere the name is
/// unchanged.
pub open spec fn adjusted_name(platform: Platform, name: Seq<char>) -> Seq<char> {
    if platform is Windows && !ends_with(name, ".exe"@) {
        name + ".exe"@
    } else {
        name
    }
}

/// The path made of a directory and a file name inside it. An empty directory
/// leaves the bare (relative) name.
pub open spec fn join_path(dir: Seq<char>, name: Seq<char>) -> Seq<char> {
    if dir.len() == 0 {
        name
    } else if dir.last() == '/' {
        dir + name
    } else {
        dir + seq!['/'] + name
    }
}

/// Every joined path ends with the file name that was joined on.
pub proof fn lemma_join_path_ends_with(dir: Seq<char>, name: Seq<char>)
    ensures
        ends_with(join_path(dir, name), name),
{
    let j = join_path(dir, name);
    assert(j.subrange(j.len() - name.len(), j.len() as int) =~= name);
}

/// A name without separators is exactly the file name of every path it was
/// joined onto.
pub proof fn lemma_join_path_file_name(dir: Seq<char>, name: Seq<char>)
    requires
        forall|k: int| 0 <= k < name.len() ==> name[k] != '/',
    ensures
        file_name_of(join_path(dir, name)) == name,
{
    let j = join_path(dir, name);
    if dir.len() == 0 {
        lemma_file_name_no_separator(name);
    } else if name.len() == 0 {
        assert(j.last() == '/');
        assert(file_name_of(j) =~= name);
    } else {
        let sep_at = j.len() - name.len() - 1;
        assert(j[sep_at] == '/');
        lemma_file_name_after_separator(j, sep_at);
        assert(j.subrange(sep_at + 1, j.len() as int) =~= name);
    }
}

/// A reference to a binary: a path that an existence probe approved when the
/// reference was built. The file may vanish afterwards; the check is made
/// once.
#[derive(Debug)]
pub struct Binary {
    /// The path to the binary.
    path: String,
}

impl View for Binary {
    type V = Seq<char>;

    closed spec fn view(&self) -> Seq<char> {
        self.path@
    }
}

impl Binary {
    /// The path to the binary.
    pub fn path(&self) -> (r: &String)
        ensures
            r@ == self@,
    {
        &self.path
    }

    /// Builds the reference from the answer of an existence probe: the given
    /// path when the probe approved it, a resolution error otherwise.
    pub fn from_probe(path: &str, is_file: bool) -> (r: Result<Binary, Error>)
        ensures
            is_file ==> (r matches Ok(b) && b@ == path@),
            !is_file ==> (r matches Err(e) && e.kind is PathError && e.message@
                == "Binary does not exist: "@ + path@),
    {
        if is_file {
            Ok(Binary { path: String::from_str(path) })
        } else {
            Err(Error::path_error(String::from_str("Binary does not exist: ").concat(path)))
        }
    }

    /// Creates a new binary reference for `path` if a regular file exists
    /// there; does not consult the search path.
    pub fn new(path: &str) -> (r: Result<Binary, Error>)
        ensures
            r matches Ok(b) ==> b@ == path@,
            r matches Err(e) ==> e.kind is PathError && e.message@ == "Binary does not exist: "@
                + path@,
    {
        let is_file = path_is_file(path);
        Binary::from_probe(path, is_file)
    }

    /// The platform-adjusted file name for `binary` on the given platform.
    pub fn binary_name_for(platform: Platform, binary: &str) -> (r: String)
        ensures
            r@ == adjusted_name(platform, binary@),
    {
        match platform {
            Platform::Unix => String::from_str(binary),
            Platform::Windows => {
                if ends_with_str(binary, ".exe") {
                    String::from_str(binary)
                } else {
                    String::from_str(binary).concat(".exe")
                }
            },
        }
    }

    /// The platform-adjusted file name for `binary` (i.e. appends `.exe` on
    /// Windows-like systems if appropriate).
    pub fn binary_name(binary: &str) -> (r: String)
        ensures
            r@ == adjusted_name(Platform::Unix, binary@),
    {
        Binary::binary_name_for(Platform::current(), binary)
    }

    /// Finds `binary` in the ordered directory list `path_list` (the value of
    /// the executable search-path variable): the first directory holding an
    /// entry of the adjusted name wins.
    pub fn find(binary: &str, path_list: &str) -> (r: Result<Binary, Error>)
        ensures
            r matches Ok(b) ==> ({
                let name = adjusted_name(Platform::Unix, binary@);
                &&& ends_with(b@, name)
                &&& exists|i: int|
                    0 <= i < split_chars(path_list@, ':').len() && b@ == join_path(
                        #[trigger] split_chars(path_list@, ':')[i],
                        name,
                    )
            }),
            r matches Err(e) ==> e.kind is PathError && e.message@
                == "Failed to find binary in PATH: "@ + adjusted_name(Platform::Unix, binary@),
    {
        let name = Binary::binary_name(binary);
        let sep = Platform::current().list_separator();
        let dirs = split_on(path_list, sep);
        let mut idx: usize = 0;
        while idx < dirs.len()
            invariant
                seq_views(dirs@) == split_chars(path_list@, ':'),
                name@ == adjusted_name(Platform::Unix, binary@),
            decreases dirs.len() - idx,
        {
            let candidate = join_dir(&dirs[idx], &name);
            if path_exists(candidate.as_str()) {
                proof {
                    lemma_join_path_ends_with(dirs@[idx as int]@, name@);
                    assert(seq_views(dirs@)[idx as int] == dirs@[idx as int]@);
                }
                return Ok(Binary { path: candidate });
            }
            idx = idx + 1;
        }
        Err(
            Error::path_error(
                String::from_str("Failed to find binary in PATH: ").concat(name.as_str()),
            ),
        )
    }
}

/// Joins a directory and a file name into one path.
fn join_dir(dir: &String, name: &String) -> (r: String)
    ensures
        r@ == join_path(dir@, name@),
{
    let dlen = dir.as_str().unicode_len();
    if dlen == 0 {
        name.clone()
    } else if dir.as_str().get_char(dlen - 1) == '/' {
        dir.clone().concat(name.as_str())
    } else {
        let r = dir.clone().concat("/").concat(name.as_str());
        proof {
            reveal_strlit("/");
            assert("/"@ =~= seq!['/']);
            assert(r@ =~= join_path(dir@, name@));
        }
        r
    }
}

/// The family a shell belongs to, as far as the execute-string argument table
/// knows it. Derived from the shell's file name, case-sensitively.
#[derive(Clone, Copy, Debug, PartialEq, Eq, Structural)]
pub enum ShellFamily {
    /// `sh` and its relatives `bash` and `zsh`: they take `-c`.
    Sh,
    /// `powershell.exe`: it takes `-executionpolicy bypass &`.
    Powershell,
}

/// The family that a shell file name belongs to, if any. The table is closed:
/// extending shell support means adding an entry here.
pub open spec fn family_of(name: Seq<char>) -> Option<ShellFamily> {
    if name == "powershell.exe"@ {
        Some(ShellFamily::Powershell)
    } else if name == "bash"@ || name == "zsh"@ || name == "sh"@ {
        Some(ShellFamily::Sh)
    } else {
        None
    }
}

/// The fixed argument list that makes a shell of the given family execute a
/// single string argument as a command line.
pub open spec fn execstring_of(family: ShellFamily) -> Seq<Seq<char>> {
    match family {
        ShellFamily::Sh => seq!["-c"@],
        ShellFamily::Powershell => seq!["-executionpolicy"@, "bypass"@, "&"@],
    }
}

/// A reference to a shell: a binary plus the shell family its file name
/// belongs to, derived once when the reference is built.
#[derive(Debug)]
pub struct Shell {
    /// The underlying shell binary.
    shell: Binary,
    /// The family of the shell's file name; `None` for an unrecognized name.
    family: Option<ShellFamily>,
}

impl View for Shell {
    type V = Seq<char>;

    closed spec fn view(&self) -> Seq<char> {
        self.shell@
    }
}

impl Shell {
    /// The family tag agrees with the shell's file name.
    pub closed spec fn wf(&self) -> bool {
        self.family == family_of(file_name_of(self.shell@))
    }

    /// The family of the shell's file name.
    pub closed spec fn family(&self) -> Option<ShellFamily> {
        self.family
    }

    /// The path to the shell binary.
    pub fn path(&self) -> (r: &String)
        ensures
            r@ == self@,
    {
        self.shell.path()
    }

    /// Wraps a resolved binary as a shell, deriving the family tag from its
    /// file name.
    pub fn from_binary(shell: Binary) -> (r: Shell)
        ensures
            r.wf(),
            r@ == shell@,
            r.family() == family_of(file_name_of(shell@)),
    {
        let name = file_name(shell.path().as_str());
        let family = if str_eq(name.as_str(), "powershell.exe") {
            Some(ShellFamily::Powershell)
        } else if str_eq(name.as_str(), "bash") || str_eq(name.as_str(), "zsh") || str_eq(
            name.as_str(),
            "sh",
        ) {
            Some(ShellFamily::Sh)
        } else {
            None
        };
        Shell { shell, family }
    }

    /// The platform's default shell file name for the given platform.
    pub fn shell_name_for(platform: Platform) -> (r: String)
        ensures
            platform is Unix ==> r@ == "sh"@,
            platform is Windows ==> r@ == "powershell.exe"@,
    {
        match platform {
            Platform::Unix => String::from_str("sh"),
            Platform::Windows => String::from_str("powershell.exe"),
        }
    }

    /// Gets the platform specific default shell name (i.e. `sh`, or
    /// `powershell.exe` for Windows-like systems).
    pub fn shell_name() -> (r: String)
        ensures
            r@ == "sh"@,
    {
        Shell::shell_name_for(Platform::current())
    }

    /// Finds the preferred shell. `preferred` is the value of the
    /// shell-preference variable, if it was readable: it is validated as an
    /// explicit path. Without it the platform default name is searched for in
    /// `path_list`.
    pub fn find(preferred: Option<&str>, path_list: &str) -> (r: Result<Shell, Error>)
        ensures
            r matches Ok(s) ==> s.wf(),
            preferred matches Some(p) ==> (r matches Ok(s) ==> s@ == p@ && s.family() == family_of(
                file_name_of(p@),
            )),
            preferred is None ==> (r matches Ok(s) ==> ends_with(s@, "sh"@) && s.family()
                == Some(ShellFamily::Sh) && (exists|i: int|
                0 <= i < split_chars(path_list@, ':').len() && s@ == join_path(
                    #[trigger] split_chars(path_list@, ':')[i],
                    "sh"@,
                ))),
            r matches Err(e) ==> e.kind is PathError,
            preferred matches Some(p) ==> (r matches Err(e) ==> e.message@
                == "Binary does not exist: "@ + p@),
            preferred is None ==> (r matches Err(e) ==> e.message@
                == "Failed to find binary in PATH: "@ + "sh"@),
    {
        match preferred {
            Some(path) => match Binary::new(path) {
                Ok(binary) => Ok(Shell::from_binary(binary)),
                Err(e) => Err(e),
            },
            None => {
                let name = Shell::shell_name();
                match Binary::find(name.as_str(), path_list) {
                    Ok(binary) => {
                        proof {
                            reveal_strlit("sh");
                            reveal_strlit("powershell.exe");
                            reveal_strlit("bash");
                            reveal_strlit("zsh");
                            assert("sh"@ =~= seq!['s', 'h']);
                            let dirs = split_chars(path_list@, ':');
                            let i = choose|i: int|
                                0 <= i < dirs.len() && binary@ == join_path(dirs[i], "sh"@);
                            lemma_join_path_file_name(dirs[i], "sh"@);
                            assert(family_of(file_name_of(binary@)) == Some(ShellFamily::Sh));
                            assert(0 <= i < split_chars(path_list@, ':').len() && binary@
                                == join_path(split_chars(path_list@, ':')[i], "sh"@));
                        }
                        Ok(Shell::from_binary(binary))
                    },
                    Err(e) => Err(e),
                }
            },
        }
    }

    /// The shell arguments required to execute a string directly. Fails with
    /// a resolution error for a shell whose file name the table does not
    /// know.
    pub fn execstring_args(&self) -> (r: Result<Vec<String>, Error>)
        requires
            self.wf(),
        ensures
            self.family() matches Some(f) ==> (r matches Ok(args) && seq_views(args@)
                == execstring_of(f)),
            self.family() is None ==> (r matches Err(e) && e.kind is PathError && e.message@
                == "Cannot get execstring arguments for unknown shell: "@ + file_name_of(self@)),
    {
        match self.family {
            Some(ShellFamily::Sh) => {
                let mut args: Vec<String> = Vec::new();
                args.push(String::from_str("-c"));
                proof {
                    assert(seq_views(args@) =~= execstring_of(ShellFamily::Sh));
                }
                Ok(args)
            },
            Some(ShellFamily::Powershell) => {
                let mut args: Vec<String> = Vec::new();
                args.push(String::from_str("-executionpolicy"));
                args.push(String::from_str("bypass"));
                args.push(String::from_str("&"));
                proof {
                    assert(seq_views(args@) =~= execstring_of(ShellFamily::Powershell));
                }
                Ok(args)
            },
            None => {
                let name = file_name(self.shell.path().as_str());
                Err(
                    Error::path_error(
                        String::from_str(
                            "Cannot get execstring arguments for unknown shell: ",
                        ).concat(name.as_str()),
                    ),
                )
            },
        }
    }
}

} // verus!
