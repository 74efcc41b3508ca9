//! Where the kernel's sched_ext state lives.
use vstd::prelude::*;
use crate::text::concat;

verus! {

/// Where to look for sched_ext kernel state. Injectable for tests.
#[derive(Debug, Clone)]
pub struct SysfsRoot(pub String);

/// The directory where the kernel exposes sched_ext.
pub const DEFAULT_SYSFS_ROOT: &'static str = "/sys/kernel/sched_ext";

/// The file whose presence shows that the kernel supports sched_ext.
pub const STATE_FILE: &'static str = "state";

impl Default for SysfsRoot {
    fn default() -> (r: Self)
        ensures
            r.0@ == DEFAULT_SYSFS_ROOT@,
    {
        SysfsRoot(DEFAULT_SYSFS_ROOT.to_owned())
    }
}

/// A relative path `name` joined onto `base`: a '/' goes between them unless
/// `base` is empty or already ends with one.
pub open spec fn join_path(base: Seq<char>, name: Seq<char>) -> Seq<char> {
    if base.len() == 0 || base.last() == '/' {
        base + name
    } else {
        base + seq!['/'] + name
    }
}

impl SysfsRoot {
    /// The path of the sched_ext state file under this root.
    pub fn state_file(&self) -> (p: String)
        ensures
            p@ == join_path(self.0@, STATE_FILE@),
    {
        let base = self.0.as_str();
        let n = base.unicode_len();
        if n == 0 || base.get_char(n - 1) == '/' {
            concat(base, STATE_FILE)
        } else {
            let with_sep = concat(base, "/");
            proof {
                reveal_strlit("/");
            }
            let r = concat(with_sep.as_str(), STATE_FILE);
            assert(r@ =~= join_path(self.0@, STATE_FILE@));
            r
        }
    }
}

} // verus!
