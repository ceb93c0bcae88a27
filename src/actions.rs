//! The decisions inside the concrete steps: what to look for in the output of
//! external operations, and the paths and commands the steps use. Carrying the
//! operations out is up to the caller.
use vstd::prelude::*;

use crate::step::{
    ArchDetectionStep, OsTypeDetectionStep, PythonPathStep, PythonRequirementsStep,
    VenvCreationStep,
};
use crate::text::{
    contains_text, lines_of, lowercase_of, lowercased, occurs_at, same_text, seq_contains,
    seq_starts_with, starts_with_text, text_lines, trim_char, trim_char_text, trim_of, trimmed,
};

verus! {

fn join2(a: &str, b: &str) -> (r: String)
    ensures
        r@ == a@ + b@,
{
    let mut r = a.to_owned();
    r.append(b);
    r
}

fn join3(a: &str, b: &str, c: &str) -> (r: String)
    ensures
        r@ == a@ + b@ + c@,
{
    let mut r = a.to_owned();
    r.append(b);
    r.append(c);
    r
}

/// `package` appears as a whole word in a `dpkg -l` listing.
pub open spec fn package_listed_in(listing: Seq<char>, package: Seq<char>) -> bool {
    seq_contains(listing, " "@ + package + " "@)
}

/// Whether `package` is already installed according to the `dpkg -l` listing.
pub fn package_listed(listing: &str, package: &str) -> (r: bool)
    ensures
        r == package_listed_in(listing@, package@),
{
    let needle = join3(" ", package, " ");
    contains_text(listing, needle.as_str())
}

/// The first line that starts with `ID=`.
pub open spec fn first_id_line(lines: Seq<Seq<char>>) -> Option<Seq<char>>
    decreases lines.len(),
{
    if lines.len() == 0 {
        None
    } else if seq_starts_with(lines[0], "ID="@) {
        Some(lines[0])
    } else {
        first_id_line(lines.drop_first())
    }
}

/// The operating system id an `os-release` document names: the value of its
/// first `ID=` line, without surrounding quotes, in lowercase.
pub open spec fn os_id_of(content: Seq<char>) -> Option<Seq<char>> {
    match first_id_line(lines_of(content)) {
        Some(line) => Some(
            lowercase_of(trim_char(line.subrange("ID="@.len() as int, line.len() as int), '"')),
        ),
        None => None,
    }
}

/// The architecture name used for downloads, from the output of `uname -m`.
pub open spec fn arch_of(uname: Seq<char>) -> Seq<char> {
    if trim_of(uname) == "aarch64"@ {
        "arm64"@
    } else {
        "amd64"@
    }
}

/// The line that puts the project on `PYTHONPATH`.
pub open spec fn pythonpath_marker(project: Seq<char>) -> Seq<char> {
    "PYTHONPATH=\""@ + project + ":"@
}

/// The line appended to the activate script.
pub open spec fn pythonpath_line(project: Seq<char>) -> Seq<char> {
    "export "@ + pythonpath_marker(project) + "$PYTHONPATH\"\n"@
}

impl OsTypeDetectionStep {
    /// The operating system id from the contents of `/etc/os-release`; `None`
    /// when no line sets `ID`.
    pub fn os_from_release(&self, content: &str) -> (r: Option<String>)
        ensures
            r matches Some(s) ==> os_id_of(content@) == Some(s@),
            r is None ==> os_id_of(content@) is None,
    {
        let lines = text_lines(content);
        let ghost all = lines_of(content@);
        let mut i: usize = 0;
        assert(all.subrange(0, all.len() as int) =~= all);
        while i < lines.len()
            invariant
                0 <= i <= lines@.len(),
                all == lines_of(content@),
                lines@.map_values(|l: String| l@) == all,
                first_id_line(all) == first_id_line(all.subrange(i as int, all.len() as int)),
            decreases lines@.len() - i,
        {
            let line = lines[i].as_str();
            assert(line@ == all[i as int]);
            assert(all.subrange(i as int, all.len() as int)[0] == line@);
            if starts_with_text(line, "ID=") {
                proof {
                    reveal_strlit("ID=");
                    assert(first_id_line(all.subrange(i as int, all.len() as int)) == Some(line@));
                }
                let n = line.unicode_len();
                let value = line.substring_char(3, n);
                let unquoted = trim_char_text(value, '"');
                return Some(lowercased(unquoted.as_str()));
            }
            assert(all.subrange(i as int, all.len() as int).drop_first() =~= all.subrange(
                i + 1,
                all.len() as int,
            ));
            i = i + 1;
        }
        assert(all.subrange(i as int, all.len() as int) =~= Seq::<Seq<char>>::empty());
        None
    }

    /// The operating system id from the output of `lsb_release -i --short`:
    /// trimmed and in lowercase.
    pub fn os_from_lsb(&self, output: &str) -> (r: String)
        ensures
            r@ == lowercase_of(trim_of(output@)),
    {
        let t = trimmed(output);
        lowercased(t.as_str())
    }

    /// The id to use when `os-release` names none: the `lsb_release` answer
    /// when there is one, else `unknown`.
    pub fn os_fallback(&self, lsb_output: Option<&str>) -> (r: String)
        ensures
            lsb_output matches Some(o) ==> r@ == lowercase_of(trim_of(o@)),
            lsb_output is None ==> r@ == "unknown"@,
    {
        match lsb_output {
            Some(o) => self.os_from_lsb(o),
            None => "unknown".to_owned(),
        }
    }
}

impl ArchDetectionStep {
    /// `arm64` for an `aarch64` machine, `amd64` for anything else.
    pub fn arch_from_uname(&self, output: &str) -> (r: &'static str)
        ensures
            r@ == arch_of(output@),
    {
        let t = trimmed(output);
        if same_text(t.as_str(), "aarch64") {
            "arm64"
        } else {
            "amd64"
        }
    }
}

impl VenvCreationStep {
    /// Where the virtual environment lives.
    pub fn venv_path(&self, project: &str) -> (r: String)
        ensures
            r@ == project@ + "/venv"@,
    {
        join2(project, "/venv")
    }

    /// The shell command that creates the virtual environment.
    pub fn create_command(&self, project: &str) -> (r: String)
        ensures
            r@ == "cd "@ + project@ + " && python3 -m venv venv"@,
    {
        join3("cd ", project, " && python3 -m venv venv")
    }
}

impl PythonPathStep {
    /// The virtual environment's activate script.
    pub fn activate_path(&self, project: &str) -> (r: String)
        ensures
            r@ == project@ + "/venv/bin/activate"@,
    {
        join2(project, "/venv/bin/activate")
    }

    /// The line to append to the activate script.
    pub fn export_line(&self, project: &str) -> (r: String)
        ensures
            r@ == pythonpath_line(project@),
    {
        let mut r = "export ".to_owned();
        r.append("PYTHONPATH=\"");
        r.append(project);
        r.append(":");
        r.append("$PYTHONPATH\"\n");
        r
    }

    /// Whether the activate script already puts the project on `PYTHONPATH`.
    pub fn is_configured(&self, script: &str, project: &str) -> (r: bool)
        ensures
            r == seq_contains(script@, pythonpath_marker(project@)),
    {
        let marker = join3("PYTHONPATH=\"", project, ":");
        contains_text(script, marker.as_str())
    }
}

/// Once the export line has been appended to an activate script, the script
/// counts as configured: running the step again appends nothing.
pub proof fn lemma_pythonpath_idempotent(script: Seq<char>, project: Seq<char>)
    ensures
        seq_contains(script + pythonpath_line(project), pythonpath_marker(project)),
{
    let full = script + pythonpath_line(project);
    let at: int = script.len() + "export "@.len() as int;
    assert(full.subrange(at, at + pythonpath_marker(project).len() as int) =~= pythonpath_marker(
        project,
    ));
    assert(occurs_at(full, pythonpath_marker(project), at));
}

impl PythonRequirementsStep {
    /// The project's requirements file.
    pub fn requirements_path(&self, project: &str) -> (r: String)
        ensures
            r@ == project@ + "/requirements.txt"@,
    {
        join2(project, "/requirements.txt")
    }

    /// The shell command that installs the requirements into the virtual
    /// environment.
    pub fn install_command(&self, project: &str) -> (r: String)
        ensures
            r@ == project@ + "/venv/bin/pip install -r "@ + project@ + "/requirements.txt"@,
    {
        let mut r = join2(project, "/venv/bin/pip install -r ");
        r.append(project);
        r.append("/requirements.txt");
        r
    }
}

} // verus!
