//! Locating helper binaries in trusted system directories.

use vstd::prelude::*;

verus! {

/// The directories an external helper binary may be run from, in the order
/// they are tried; `PATH` is deliberately not consulted.
pub open spec fn trusted_bin_dirs() -> Seq<Seq<char>> {
    seq!["/usr/bin"@, "/bin"@, "/usr/local/bin"@, "/opt/homebrew/bin"@]
}

/// `Path::join` on text: an absolute `name` replaces `dir`, anything else is
/// appended after one separator.
pub open spec fn path_join(dir: Seq<char>, name: Seq<char>) -> Seq<char> {
    if name.len() > 0 && name[0] == '/' {
        name
    } else {
        dir + seq!['/'] + name
    }
}

/// Joins a directory and a relative or absolute name as `Path::join` does.
pub(crate) fn join_path(dir: &str, name: &str) -> (r: String)
    ensures
        r@ == path_join(dir@, name@),
{
    if !name.is_empty() && name.get_char(0) == '/' {
        return name.to_owned();
    }
    let mut r = dir.to_owned();
    r.append("/");
    proof {
        reveal_strlit("/");
    }
    r.append(name);
    r
}

/// `Path::exists` on a path given as text; the answer depends on what is on
/// disk at the moment of the call, so nothing is promised of it.
#[verifier::external_body]
fn path_exists(path: &str) -> (r: bool) {
    std::path::Path::new(path).exists()
}

/// Which of the four trusted directories to take, given whether `name`
/// exists in each (in order): the first one where it does, `None` only when
/// it exists in none.
pub fn first_existing(exists: &[bool; 4]) -> (r: Option<usize>)
    ensures
        r matches Some(i) ==> i < 4 && exists@[i as int] && forall|j: int|
            0 <= j < i ==> !exists@[j],
        r is None <==> forall|j: int| 0 <= j < 4 ==> !exists@[j],
{
    let mut i: usize = 0;
    while i < 4
        invariant
            i <= 4,
            forall|j: int| 0 <= j < i ==> !exists@[j],
        decreases 4 - i,
    {
        if exists[i] {
            return Some(i);
        }
        i = i + 1;
    }
    None
}

/// The path of `name` in the first trusted directory that holds it, given
/// whether `name` exists in each of them (in order); `None` when none does.
pub fn pick_binary(name: &str, exists: &[bool; 4]) -> (r: Option<String>)
    ensures
        match r {
            Some(p) => exists|i: int|
                0 <= i < 4 && exists@[i] && (forall|j: int| 0 <= j < i ==> !exists@[j])
                    && p@ == #[trigger] path_join(trusted_bin_dirs()[i], name@),
            None => forall|j: int| 0 <= j < 4 ==> !exists@[j],
        },
{
    let dirs: [&str; 4] = ["/usr/bin", "/bin", "/usr/local/bin", "/opt/homebrew/bin"];
    match first_existing(exists) {
        Some(i) => {
            let full = join_path(dirs[i], name);
            assert(dirs@[i as int]@ == trusted_bin_dirs()[i as int]) by {
                reveal_strlit("/usr/bin");
                reveal_strlit("/bin");
                reveal_strlit("/usr/local/bin");
                reveal_strlit("/opt/homebrew/bin");
            }
            assert(full@ == path_join(trusted_bin_dirs()[i as int], name@));
            Some(full)
        },
        None => None,
    }
}

/// Looks for `name` in the trusted system directories and returns its path
/// in the first one that holds it. Whether a candidate exists is asked of
/// the disk, so nothing is promised of which one that is; the choice among
/// the answers is `pick_binary`'s.
pub fn resolve_binary(name: &str) -> (r: Option<String>)
    ensures
        r matches Some(p) ==> exists|i: int|
            0 <= i < 4 && p@ == #[trigger] path_join(trusted_bin_dirs()[i], name@),
{
    let dirs: [&str; 4] = ["/usr/bin", "/bin", "/usr/local/bin", "/opt/homebrew/bin"];
    let mut answers: [bool; 4] = [false; 4];
    let mut i: usize = 0;
    while i < 4
        invariant
            i <= 4,
            dirs@.len() == 4,
            answers@.len() == 4,
        decreases 4 - i,
    {
        let full = join_path(dirs[i], name);
        answers[i] = path_exists(full.as_str());
        i = i + 1;
    }
    pick_binary(name, &answers)
}

} // verus!
