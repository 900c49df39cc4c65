//! Default-shell resolution: a pure decision over what the platform lookups
//! (login-shell variable, PATH searches, known install locations) reported.

use vstd::prelude::*;
use vstd::string::StringExecFns;

verus! {

/// The platforms the shell resolver distinguishes.
#[derive(Clone, Copy, Debug, PartialEq, Eq, Structural)]
pub enum Platform {
    Windows,
    Linux,
    MacOs,
}

/// The shell a session runs when the caller names no command: on Windows a
/// discovered PowerShell, falling back to the legacy shell; elsewhere the
/// login-shell environment variable, falling back to a per-platform binary.
pub fn get_default_shell(os: Platform, env_shell: Option<String>, powershell: Option<String>) -> (r:
    String)
    ensures
        match os {
            Platform::Windows => match powershell {
                Some(p) => r@ == p@,
                None => r@ == "cmd.exe"@,
            },
            Platform::Linux => match env_shell {
                Some(s) => r@ == s@,
                None => r@ == "bash"@,
            },
            Platform::MacOs => match env_shell {
                Some(s) => r@ == s@,
                None => r@ == "zsh"@,
            },
        },
{
    match os {
        Platform::Windows => match powershell {
            Some(p) => p,
            None => "cmd.exe".to_owned(),
        },
        Platform::Linux => match env_shell {
            Some(s) => s,
            None => "bash".to_owned(),
        },
        Platform::MacOs => match env_shell {
            Some(s) => s,
            None => "zsh".to_owned(),
        },
    }
}

/// The install locations searched for a modern PowerShell once the PATH
/// lookups came up empty: the PowerShell Core homes under the program-files
/// root, then the legacy Windows PowerShell locations.
pub fn powershell_candidates(program_files: &str, program_files_x86: &str) -> (r: Vec<String>)
    ensures
        r@.len() == 5,
        r@[0]@ == program_files@ + "\\PowerShell\\7\\pwsh.exe"@,
        r@[1]@ == program_files@ + "\\PowerShell\\7-preview\\pwsh.exe"@,
        r@[2]@ == program_files@ + "\\PowerShell\\6\\pwsh.exe"@,
        r@[3]@ == "C:\\Windows\\System32\\WindowsPowerShell\\v1.0\\powershell.exe"@,
        r@[4]@ == program_files_x86@ + "\\PowerShell\\powershell.exe"@,
{
    let mut r: Vec<String> = Vec::new();
    let mut p = String::new();
    p.append(program_files);
    p.append("\\PowerShell\\7\\pwsh.exe");
    r.push(p);
    let mut p = String::new();
    p.append(program_files);
    p.append("\\PowerShell\\7-preview\\pwsh.exe");
    r.push(p);
    let mut p = String::new();
    p.append(program_files);
    p.append("\\PowerShell\\6\\pwsh.exe");
    r.push(p);
    r.push("C:\\Windows\\System32\\WindowsPowerShell\\v1.0\\powershell.exe".to_owned());
    let mut p = String::new();
    p.append(program_files_x86);
    p.append("\\PowerShell\\powershell.exe");
    r.push(p);
    r
}

/// The first candidate the caller found to exist on disk, searched in order.
pub fn first_existing(candidates: &Vec<String>, exists: &Vec<bool>) -> (r: Option<String>)
    requires
        candidates@.len() == exists@.len(),
    ensures
        match r {
            Some(p) => exists|i: int|
                0 <= i < exists@.len() && exists@[i] && p@ == candidates@[i]@ && (forall|j: int|
                    0 <= j < i ==> !exists@[j]),
            None => forall|i: int| 0 <= i < exists@.len() ==> !exists@[i],
        },
{
    let mut i: usize = 0;
    while i < exists.len()
        invariant
            candidates@.len() == exists@.len(),
            i <= exists@.len(),
            forall|j: int| 0 <= j < i ==> !exists@[j],
        decreases exists@.len() - i,
    {
        if exists[i] {
            return Some(candidates[i].clone());
        }
        i = i + 1;
    }
    None
}

/// Where the Windows resolver settles, given what each probe reported: the
/// PATH lookup of PowerShell Core, then of Windows PowerShell, then the first
/// known install location that exists; with nothing found, the search fails
/// and the caller falls back to the legacy shell.
pub fn find_powershell(
    which_pwsh: Option<String>,
    which_powershell: Option<String>,
    candidate_hit: Option<String>,
) -> (r: Result<String, String>)
    ensures
        match which_pwsh {
            Some(p) => r matches Ok(q) && q@ == p@,
            None => match which_powershell {
                Some(p) => r matches Ok(q) && q@ == p@,
                None => match candidate_hit {
                    Some(p) => r matches Ok(q) && q@ == p@,
                    None => r matches Err(e) && e@ == "PowerShell not found"@,
                },
            },
        },
{
    match which_pwsh {
        Some(p) => Ok(p),
        None => match which_powershell {
            Some(p) => Ok(p),
            None => match candidate_hit {
                Some(p) => Ok(p),
                None => Err("PowerShell not found".to_owned()),
            },
        },
    }
}

} // verus!
