//! Versioned schema migration: each script's file name starts with a
//! three-digit, zero-padded target version. The runner repeatedly applies
//! the script targeting the store's current version plus one, until no such
//! script exists; it never skips a version gap.

use vstd::prelude::*;
use crate::database::Handle;
use crate::text::digit_val;
use crate::text::is_digit;

verus! {

/// One migration script: the file name it was found under, and its full
/// SQL text. By convention the script's final statement sets the store's
/// version cell to the version its name encodes.
#[derive(Clone)]
pub struct MigrationScript {
    pub name: String,
    pub sql: String,
}

/// Why a migration run failed.
#[derive(Clone, Copy, PartialEq, Eq, Structural, Debug)]
pub enum MigrationError {
    /// No migration scripts were found at all; the store can never be
    /// ready without the base script.
    NoScripts,
    /// The store's version cell could not be read.
    StoreFailure,
    /// A script's statement batch failed part-way; what it had already
    /// changed is left as it stands.
    ScriptFailed,
    /// A script ran but did not advance the version cell to the version
    /// its name encodes.
    VersionNotAdvanced,
}

/// The version a script's file name encodes: its first three characters,
/// all decimal digits, read as a zero-padded number.
pub open spec fn prefix_version(name: Seq<char>) -> Option<int> {
    if name.len() >= 3 && is_digit(name[0]) && is_digit(name[1]) && is_digit(name[2]) {
        Some(digit_val(name[0]) * 100 + digit_val(name[1]) * 10 + digit_val(name[2]))
    } else {
        None
    }
}

/// The set of versions that some script of `scripts` targets.
pub open spec fn script_versions(scripts: Seq<MigrationScript>) -> Set<int> {
    Set::new(
        |v: int|
            exists|j: int|
                0 <= j < scripts.len() && prefix_version(scripts[j].name@) == Some(v),
    )
}

/// A store at `version` is settled for `avail` when no script targets the
/// next version: a run stops there.
pub open spec fn schema_settled(avail: Set<int>, version: int) -> bool {
    !avail.contains(version + 1)
}

/// A migration run over the versions `avail` takes the store from version
/// `from` to version `to`: it climbs one available version at a time and
/// stops at the first gap.
pub open spec fn migration_run(avail: Set<int>, from: int, to: int) -> bool {
    &&& from <= to
    &&& schema_settled(avail, to)
    &&& forall|w: int| from < w <= to ==> avail.contains(w)
}

/// Law: a run from a given start version ends at exactly one version, the
/// first gap — two runs over the same scripts cannot end apart.
pub proof fn lemma_migration_run_deterministic(avail: Set<int>, from: int, v1: int, v2: int)
    requires
        migration_run(avail, from, v1),
        migration_run(avail, from, v2),
    ensures
        v1 == v2,
{
    if v1 < v2 {
        assert(avail.contains(v1 + 1));
    }
    if v2 < v1 {
        assert(avail.contains(v2 + 1));
    }
}

/// Law: a run ends settled, so running again from where a run ended moves
/// nothing — applying the runner twice is equivalent to applying it once.
pub proof fn lemma_second_run_is_noop(avail: Set<int>, from: int, to: int, again: int)
    requires
        migration_run(avail, from, to),
        migration_run(avail, to, again),
    ensures
        again == to,
        schema_settled(avail, to),
{
    if to < again {
        assert(avail.contains(to + 1));
    }
}

/// Read the version a script name targets, exactly when the name starts
/// with three decimal digits.
pub fn parse_version_prefix(name: &str) -> (r: Option<u64>)
    ensures
        match r {
            Some(v) => prefix_version(name@) == Some(v as int) && v <= 999,
            None => prefix_version(name@) is None,
        },
{
    if name.unicode_len() < 3 {
        return None;
    }
    let v0 = name.get_char(0) as u32;
    let v1 = name.get_char(1) as u32;
    let v2 = name.get_char(2) as u32;
    if v0 < 48 || v0 > 57 || v1 < 48 || v1 > 57 || v2 < 48 || v2 > 57 {
        return None;
    }
    Some((((v0 - 48) * 100 + (v1 - 48) * 10 + (v2 - 48)) as u64))
}

/// Find a script that targets version `want`, or establish that none does.
fn find_script(scripts: &Vec<MigrationScript>, want: i64) -> (r: Option<usize>)
    ensures
        match r {
            Some(idx) => idx < scripts@.len() && prefix_version(scripts@[idx as int].name@)
                == Some(want as int),
            None => !script_versions(scripts@).contains(want as int),
        },
{
    let mut j: usize = 0;
    while j < scripts.len()
        invariant
            j <= scripts@.len(),
            forall|k: int| 0 <= k < j ==> prefix_version(scripts@[k].name@) != Some(want as int),
        decreases scripts@.len() - j,
    {
        match parse_version_prefix(scripts[j].name.as_str()) {
            Some(v) => {
                if (v as i64) == want {
                    return Some(j);
                }
            },
            None => {},
        }
        j = j + 1;
    }
    None
}

impl Handle {
    /// Bring the store's schema to the latest version reachable from
    /// `scripts`: repeatedly apply the one script whose three-digit name
    /// prefix encodes the current version plus one, until none exists —
    /// even if scripts beyond a version gap remain. Each script must leave
    /// the version cell at the version its name encodes (by convention its
    /// final statement sets it); a script that does not stops the run.
    ///
    /// A store that is already settled is left untouched, so a second run
    /// over the same scripts is a no-op.
    pub fn update_schema(&mut self, scripts: &Vec<MigrationScript>) -> (r: Result<
        (),
        MigrationError,
    >)
        ensures
            r is Ok ==> migration_run(
                script_versions(scripts@),
                old(self)@.version,
                final(self)@.version,
            ),
            r is Ok && schema_settled(script_versions(scripts@), old(self)@.version)
                ==> final(self)@ == old(self)@,
            (r matches Err(e) && e == MigrationError::NoScripts) <==> scripts@.len() == 0,
    {
        if scripts.len() == 0 {
            return Err(MigrationError::NoScripts);
        }
        let mut cur: i64 = match self.read_schema_version() {
            Ok(v) => v,
            Err(_) => {
                return Err(MigrationError::StoreFailure);
            },
        };
        loop
            invariant
                cur == self@.version,
                -0x8000_0000 <= cur <= 0x7fff_ffff,
                old(self)@.version <= cur,
                scripts@.len() > 0,
                forall|w: int|
                    old(self)@.version < w <= cur ==> script_versions(scripts@).contains(w),
                schema_settled(script_versions(scripts@), old(self)@.version)
                    ==> cur == old(self)@.version && self@ == old(self)@,
            ensures
                cur == self@.version,
                old(self)@.version <= cur,
                forall|w: int|
                    old(self)@.version < w <= cur ==> script_versions(scripts@).contains(w),
                !script_versions(scripts@).contains(cur + 1),
                schema_settled(script_versions(scripts@), old(self)@.version)
                    ==> self@ == old(self)@,
            decreases 0x8000_0000 - cur,
        {
            let next: i64 = cur + 1;
            match find_script(scripts, next) {
                None => {
                    break ;
                },
                Some(idx) => {
                    proof {
                        assert(script_versions(scripts@).contains(next as int)) by {
                            assert(prefix_version(scripts@[idx as int].name@) == Some(
                                next as int,
                            ));
                        }
                    }
                    match self.execute_batch_raw(scripts[idx].sql.as_str()) {
                        Ok(()) => {},
                        Err(_) => {
                            return Err(MigrationError::ScriptFailed);
                        },
                    }
                    let advanced: i64 = match self.read_schema_version() {
                        Ok(v) => v,
                        Err(_) => {
                            return Err(MigrationError::StoreFailure);
                        },
                    };
                    if advanced != next {
                        return Err(MigrationError::VersionNotAdvanced);
                    }
                    cur = advanced;
                },
            }
        }
        Ok(())
    }
}

} // verus!
