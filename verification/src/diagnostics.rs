//! The data collected by environment diagnostics, and the checks on it
//! that are plain decisions over gathered values. Gathering itself —
//! registry reads, filesystem probes, executable lookups — happens at
//! the program's edge and hands plain values in.

use vstd::prelude::*;

use crate::strutil::str_eq;

verus! {

/// Whether long path support is available.
#[derive(Debug, Copy, Clone, PartialEq, Eq, Structural)]
pub enum LongPathsStatus {
    /// Long paths are enabled.
    Enabled,
    /// This version of the operating system does not support long paths.
    OldWindows,
    /// Long paths are disabled.
    Disabled,
}

/// A helper program packages rely on for unpacking.
#[derive(Debug, Copy, Clone)]
pub struct Helper {
    /// The executable looked for.
    pub exe: &'static str,
    /// The helper's display name.
    pub name: &'static str,
    /// What the helper is needed for.
    pub reason: &'static str,
    /// The packages that provide it.
    pub packages: &'static [&'static str],
}

/// The helpers whose executable was not located, in order: `found`
/// reports, position by position, whether the helper's executable was
/// found.
pub open spec fn missing_spec(helpers: Seq<Helper>, found: Seq<bool>) -> Seq<Helper>
    decreases helpers.len(),
{
    if helpers.len() == 0 || found.len() == 0 {
        Seq::empty()
    } else {
        (if !found[0] {
            seq![helpers[0]]
        } else {
            Seq::empty()
        }) + missing_spec(helpers.skip(1), found.skip(1))
    }
}

/// The collected diagnostics.
#[derive(Debug, Clone)]
pub struct Diagnostics {
    /// Whether git is on the path.
    pub git_installed: bool,
    /// Whether long paths are supported and enabled.
    pub long_paths: LongPathsStatus,
    /// Whether the main bucket is present.
    pub main_bucket: bool,
    /// Whether developer mode is enabled.
    pub windows_developer: bool,
    /// Whether the install directory is excluded from the virus scanner.
    pub windows_defender: bool,
    /// The helper programs that are not installed.
    pub missing_helpers: Vec<Helper>,
    /// Whether the install directory lies on an NTFS volume.
    pub scoop_ntfs: bool,
}

impl Diagnostics {
    /// Whether the main bucket is among the given bucket names.
    pub fn check_main_bucket(bucket_names: &Vec<String>) -> (r: bool)
        ensures
            r == exists|i: int|
                0 <= i < bucket_names.deep_view().len() && bucket_names.deep_view()[i] == "main"@,
    {
        let mut i: usize = 0;
        while i < bucket_names.len()
            invariant
                i <= bucket_names@.len(),
                forall|j: int| 0 <= j < i ==> bucket_names.deep_view()[j] != "main"@,
            decreases bucket_names@.len() - i,
        {
            if str_eq(bucket_names[i].as_str(), "main") {
                proof {
                    assert(bucket_names.deep_view()[i as int] == "main"@);
                }
                return true;
            }
            i = i + 1;
        }
        false
    }

    /// The helpers expected to be installed.
    pub fn expected_helpers() -> (r: Vec<Helper>)
        ensures
            r@.len() == 3,
            r@[0].exe@ == "7z"@,
            r@[1].exe@ == "innounp"@,
            r@[2].exe@ == "dark"@,
    {
        let mut r: Vec<Helper> = Vec::new();
        r.push(
            Helper {
                exe: "7z",
                name: "7-Zip",
                reason: "unpacking most programs",
                packages: &["7zip", "7zip-std"],
            },
        );
        r.push(
            Helper {
                exe: "innounp",
                name: "Inno Setup Unpacker",
                reason: "unpacking InnoSetup files",
                packages: &["innounp"],
            },
        );
        r.push(
            Helper {
                exe: "dark",
                name: "Dark",
                reason: "unpacking installers created with the WiX toolkit",
                packages: &["dark", "wixtoolset"],
            },
        );
        r
    }

    /// The helpers whose executable was not found, kept in order:
    /// `found` reports, for each helper, whether its executable was
    /// located.
    pub fn missing_from(helpers: Vec<Helper>, found: &Vec<bool>) -> (r: Vec<Helper>)
        requires
            helpers@.len() == found@.len(),
        ensures
            r@ == missing_spec(helpers@, found@),
    {
        let mut r: Vec<Helper> = Vec::new();
        let mut i: usize = 0;
        let ghost all = helpers@;
        let ghost fl = found@;
        proof {
            assert(all.skip(0) =~= all);
            assert(fl.skip(0) =~= fl);
            assert(r@ + missing_spec(all, fl) =~= missing_spec(all, fl));
        }
        while i < helpers.len()
            invariant
                i <= helpers@.len(),
                all == helpers@,
                fl == found@,
                all.len() == fl.len(),
                missing_spec(all, fl) == r@ + missing_spec(all.skip(i as int), fl.skip(i as int)),
            decreases helpers@.len() - i,
        {
            proof {
                let rest = all.skip(i as int);
                let restf = fl.skip(i as int);
                assert(rest[0] == all[i as int]);
                assert(restf[0] == fl[i as int]);
                assert(rest.skip(1) =~= all.skip(i + 1));
                assert(restf.skip(1) =~= fl.skip(i + 1));
            }
            let ghost before = r@;
            if !found[i] {
                r.push(helpers[i]);
                proof {
                    assert(r@ + missing_spec(all.skip(i + 1), fl.skip(i + 1)) =~= before + (seq![
                        all[i as int],
                    ] + missing_spec(all.skip(i + 1), fl.skip(i + 1))));
                }
            } else {
                proof {
                    assert(Seq::<Helper>::empty() + missing_spec(all.skip(i + 1), fl.skip(i + 1))
                        =~= missing_spec(all.skip(i + 1), fl.skip(i + 1)));
                }
            }
            i = i + 1;
        }
        proof {
            assert(all.skip(i as int) =~= Seq::<Helper>::empty());
            assert(r@ + missing_spec(all.skip(i as int), fl.skip(i as int)) =~= r@);
        }
        r
    }
}

} // verus!
