use vstd::prelude::*;

use crate::date::{is_clock_time, utc_now, UtcTime};

verus! {

/// When a backup was made or last updated.
pub type Date = UtcTime;

/// A backup listed in the settings file.
#[derive(Debug, Clone)]
pub struct RegisteredBkp {
    pub name: String,
    pub desc: String,
    pub creation_date: Date,
    pub update_date: Option<Date>,
}

impl RegisteredBkp {
    /// A backup called `name`, with no description, created now and never updated.
    pub fn with_name(name: String) -> (b: Self)
        ensures
            b.name@ == name@,
            b.desc@.len() == 0,
            b.update_date is None,
            is_clock_time(b.creation_date),
    {
        RegisteredBkp { name, ..Default::default() }
    }

    /// Registers a backup found in the backups directory under its name.
    pub fn from_unregistered(value: UnregisteredBkp) -> (b: Self)
        ensures
            b.name@ == value.name@,
            b.desc@.len() == 0,
            b.update_date is None,
            is_clock_time(b.creation_date),
    {
        Self::with_name(value.name)
    }
}

impl Default for RegisteredBkp {
    /// An unnamed backup with no description, created now and never updated.
    fn default() -> (b: Self)
        ensures
            b.name@.len() == 0,
            b.desc@.len() == 0,
            b.update_date is None,
            is_clock_time(b.creation_date),
    {
        RegisteredBkp {
            name: String::new(),
            desc: String::new(),
            creation_date: utc_now(),
            update_date: None,
        }
    }
}

/// A backup found in the backups directory but not listed in the settings file.
#[derive(Debug, Clone, PartialEq, Eq)]
pub struct UnregisteredBkp {
    pub name: String,
}

/// A backup, listed in the settings file or only found on disk.
#[derive(Debug)]
pub enum Bkp {
    Registered(RegisteredBkp),
    Unregistered(UnregisteredBkp),
}

impl Bkp {
    /// The name under which a backup is shown.
    pub open spec fn spec_name(&self) -> Seq<char> {
        match self {
            Bkp::Registered(b) => b.name@,
            Bkp::Unregistered(b) => b.name@,
        }
    }

    /// The name under which the backup is shown.
    pub fn name(&self) -> (s: &str)
        ensures
            s@ == self.spec_name(),
    {
        match self {
            Bkp::Registered(b) => b.name.as_str(),
            Bkp::Unregistered(b) => b.name.as_str(),
        }
    }
}

/// A file name that looks like a backup: its extension (as `Path::extension`
/// reads it) is `zip`, that is, it ends in `.zip` and has something before that.
pub open spec fn is_bkp_file_name_spec(file_name: Seq<char>) -> bool {
    &&& file_name.len() > 4
    &&& file_name.skip(file_name.len() - 4) == seq!['.', 'z', 'i', 'p']
}

/// A file is listed as a backup exactly when its name is some non-empty
/// stem followed by `.zip`: `a.zip` is, `.zip`, `a.zi` and `a.zip.txt` are not.
pub proof fn law_backup_names_end_in_zip(stem: Seq<char>, name: Seq<char>)
    ensures
        stem.len() > 0 ==> is_bkp_file_name_spec(stem + seq!['.', 'z', 'i', 'p']),
        is_bkp_file_name_spec(name) ==> name.len() > 4 && name == name.take(name.len() - 4) + seq![
            '.',
            'z',
            'i',
            'p',
        ],
        !is_bkp_file_name_spec(seq!['.', 'z', 'i', 'p']),
{
    let z = seq!['.', 'z', 'i', 'p'];
    assert((stem + z).skip((stem + z).len() - 4) =~= z);
    if is_bkp_file_name_spec(name) {
        let s = name.take(name.len() - 4);
        assert(name =~= s + z);
    }
}

/// Whether a file of this name is listed as a backup.
pub fn is_bkp_file_name(file_name: &str) -> (b: bool)
    ensures
        b == is_bkp_file_name_spec(file_name@),
{
    let chars = crate::text::chars_of(file_name);
    let n = chars.len();
    if n <= 4 {
        return false;
    }
    let r = chars[n - 4] == '.' && chars[n - 3] == 'z' && chars[n - 2] == 'i' && chars[n - 1] == 'p';
    assert(r ==> chars@.skip(n - 4) =~= seq!['.', 'z', 'i', 'p']);
    assert(chars@.skip(n - 4) == seq!['.', 'z', 'i', 'p'] ==> {
        &&& chars@.skip(n - 4)[0] == chars@[n - 4]
        &&& chars@.skip(n - 4)[1] == chars@[n - 3]
        &&& chars@.skip(n - 4)[2] == chars@[n - 2]
        &&& chars@.skip(n - 4)[3] == chars@[n - 1]
    });
    r
}

/// Whether a directory entry is listed as a backup: it is a file and it has
/// a name that looks like a backup (see [`is_bkp_file_name_spec`]).
pub open spec fn is_enlistable(is_file: bool, name: Option<String>) -> bool {
    &&& is_file
    &&& name matches Some(n) && is_bkp_file_name_spec(n@)
}

/// The positions, in order, of the directory entries that are listed as
/// backups: `is_file[i]` tells whether entry `i` is a file and `names[i]`
/// gives its file name, if it has one.
pub fn enlistable_entries(is_file: &Vec<bool>, names: &Vec<Option<String>>) -> (r: Vec<usize>)
    requires
        is_file@.len() == names@.len(),
    ensures
        forall|k: int| 0 <= k < r@.len() ==> {
            &&& (#[trigger] r@[k]) < is_file@.len()
            &&& is_enlistable(is_file@[r@[k] as int], names@[r@[k] as int])
        },
        forall|k: int, l: int| 0 <= k < l < r@.len() ==> r@[k] < r@[l],
        forall|i: int|
            0 <= i < is_file@.len() && is_enlistable(#[trigger] is_file@[i], names@[i]) ==> r@.contains(
                i as usize,
            ),
{
    let n = is_file.len();
    let mut r: Vec<usize> = Vec::new();
    for i in 0..n
        invariant
            n == is_file@.len(),
            n == names@.len(),
            forall|k: int| 0 <= k < r@.len() ==> {
                &&& (#[trigger] r@[k]) < i
                &&& is_enlistable(is_file@[r@[k] as int], names@[r@[k] as int])
            },
            forall|k: int, l: int| 0 <= k < l < r@.len() ==> r@[k] < r@[l],
            forall|j: int|
                0 <= j < i && is_enlistable(#[trigger] is_file@[j], names@[j]) ==> r@.contains(j as usize),
    {
        let keep = match &names[i] {
            Some(name) => is_file[i] && is_bkp_file_name(name.as_str()),
            None => false,
        };
        if keep {
            let ghost before = r@;
            r.push(i);
            assert(r@[r@.len() - 1] == i);
            assert forall|j: int|
                0 <= j < i + 1 && is_enlistable(#[trigger] is_file@[j], names@[j]) implies r@.contains(
                j as usize,
            ) by {
                if j < i {
                    let k = choose|k: int| 0 <= k < before.len() && before[k] == j as usize;
                    assert(r@[k] == j as usize);
                } else {
                    assert(r@[r@.len() - 1] == j as usize);
                }
            }
        }
    }
    r
}

} // verus!
