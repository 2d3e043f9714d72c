//! Where Steam keeps Deltarune's local data.
use vstd::prelude::*;

use crate::text::{chars_of, join_path, joined_path};

verus! {

/// Why Deltarune's local data directory could not be found.
#[derive(Debug, Clone, Copy, PartialEq, Eq, Structural)]
pub enum DeltarunePathError {
    /// could not retrieve the home directory
    HomeDirNotPresent,
    /// none of the suffixes in [`Sufs`] match deltarune local data location
    DeltaruneNotPresent,
    /// operating system is not supported by the function
    OsNotSupported,
}

/// Where, below the home directory, Steam keeps Deltarune's local data on
/// each supported system; Linux has three candidates, tried in order.
pub struct Sufs<'a> {
    pub windows: &'a str,
    pub macos: &'a str,
    pub linux_native: &'a str,
    pub linux_compat: &'a str,
    pub linux_flatpak: &'a str,
}

/// The suffixes to try for the operating system called `os` (as
/// `std::env::consts::OS` names it), or `None` when it is not supported.
pub open spec fn sufs_for(os: Seq<char>, sufs: Sufs) -> Option<Seq<Seq<char>>> {
    if os == "windows"@ {
        Some(seq![sufs.windows@])
    } else if os == "macos"@ {
        Some(seq![sufs.macos@])
    } else if os == "linux"@ {
        Some(seq![sufs.linux_native@, sufs.linux_compat@, sufs.linux_flatpak@])
    } else {
        None
    }
}

/// Each supported system gets its own suffixes: Windows and macOS one each,
/// Linux its native, compatibility and Flatpak places in that order; any
/// other system is not supported.
pub proof fn law_suffixes_per_system(sufs: Sufs, os: Seq<char>)
    ensures
        sufs_for("windows"@, sufs) == Some(seq![sufs.windows@]),
        sufs_for("macos"@, sufs) == Some(seq![sufs.macos@]),
        sufs_for("linux"@, sufs) == Some(seq![sufs.linux_native@, sufs.linux_compat@, sufs.linux_flatpak@]),
        os != "windows"@ && os != "macos"@ && os != "linux"@ ==> sufs_for(os, sufs) is None,
{
    reveal_strlit("windows");
    reveal_strlit("macos");
    reveal_strlit("linux");
    assert("macos"@.len() != "windows"@.len());
    assert("linux"@.len() != "windows"@.len());
    assert("linux"@[0] != "macos"@[0]);
}

/// Whether two strings hold the same characters.
pub fn same_text(a: &str, b: &str) -> (r: bool)
    ensures
        r == (a@ == b@),
{
    let x = chars_of(a);
    let y = chars_of(b);
    if x.len() != y.len() {
        return false;
    }
    let n = x.len();
    for i in 0..n
        invariant
            n == x@.len(),
            n == y@.len(),
            x@ == a@,
            y@ == b@,
            forall|j: int| 0 <= j < i ==> x@[j] == y@[j],
    {
        if x[i] != y[i] {
            assert(x@[i as int] != y@[i as int]);
            return false;
        }
    }
    assert(x@ =~= y@);
    true
}

/// The directories to look at, in order: each suffix for `os` below `home`.
/// Fails when there is no home directory, then when the system is not supported.
pub fn deltarune_candidates(home: Option<&str>, os: &str, sufs: &Sufs) -> (r: Result<Vec<String>, DeltarunePathError>)
    ensures
        match home {
            None => r == Err::<Vec<String>, _>(DeltarunePathError::HomeDirNotPresent),
            Some(h) => match sufs_for(os@, *sufs) {
                None => r == Err::<Vec<String>, _>(DeltarunePathError::OsNotSupported),
                Some(s) => r matches Ok(v) && v@.len() == s.len()
                    && forall|i: int| 0 <= i < s.len() ==> joined_path(h@, s[i], (#[trigger] v@[i])@),
            },
        },
{
    let home = match home {
        Some(h) => h,
        None => return Err(DeltarunePathError::HomeDirNotPresent),
    };
    if same_text(os, "windows") {
        Ok(vec![join_path(home, sufs.windows)])
    } else if same_text(os, "macos") {
        Ok(vec![join_path(home, sufs.macos)])
    } else if same_text(os, "linux") {
        Ok(
            vec![
                join_path(home, sufs.linux_native),
                join_path(home, sufs.linux_compat),
                join_path(home, sufs.linux_flatpak),
            ],
        )
    } else {
        Err(DeltarunePathError::OsNotSupported)
    }
}

/// The first candidate that is a directory (`is_dir[i]` tells whether
/// `candidates[i]` is one), or `DeltaruneNotPresent` when none is.
pub fn first_existing(candidates: &Vec<String>, is_dir: &Vec<bool>) -> (r: Result<String, DeltarunePathError>)
    requires
        candidates@.len() == is_dir@.len(),
    ensures
        match r {
            Ok(p) => exists|i: int|
                0 <= i < is_dir@.len() && #[trigger] is_dir@[i] && p@ == candidates@[i]@
                    && forall|j: int| 0 <= j < i ==> !is_dir@[j],
            Err(e) => e == DeltarunePathError::DeltaruneNotPresent
                && forall|j: int| 0 <= j < is_dir@.len() ==> !is_dir@[j],
        },
{
    let n = is_dir.len();
    for i in 0..n
        invariant
            n == is_dir@.len(),
            candidates@.len() == n,
            forall|j: int| 0 <= j < i ==> !is_dir@[j],
    {
        if is_dir[i] {
            let p = candidates[i].clone();
            assert(is_dir@[i as int]);
            return Ok(p);
        }
    }
    Err(DeltarunePathError::DeltaruneNotPresent)
}

} // verus!
