//! The commit protocol: the steps of an atomic switch to new metadata, and
//! how the current version of a file system table is found.

use vstd::prelude::*;
use vstd::string::*;
use crate::error::IcebergError;
use crate::text::{all_digits, digits_value, parse_uint, parse_uint_spec, text_eq};

verus! {

/// The outcome of one object store request of a commit.
#[derive(Debug, PartialEq, Eq, Clone, Copy, Structural)]
pub enum StoreEvent {
    /// The request succeeded.
    Done,
    /// A create-if-not-exists copy found its target already there.
    AlreadyExists,
    /// The request failed.
    Failed,
}

/// The steps of the commit of a file system table.
#[derive(Debug, PartialEq, Eq, Clone, Copy, Structural)]
pub enum CommitStep {
    /// Write the new metadata under a temporary name.
    PutTemp,
    /// Copy it to its canonical name, unless that name exists.
    CopyToFinal,
    /// Delete the temporary file.
    DeleteTemp,
    /// Reload the table from its canonical metadata.
    Reload,
    /// The commit succeeded.
    Committed,
    /// Another writer committed this version first.
    Conflict,
    /// A request failed.
    Failed,
}

/// The step that follows `step` when its request ended with `event`.
pub open spec fn next_step_spec(step: CommitStep, event: StoreEvent) -> CommitStep {
    match step {
        CommitStep::Committed | CommitStep::Conflict | CommitStep::Failed => step,
        _ => match event {
            StoreEvent::Failed => CommitStep::Failed,
            StoreEvent::AlreadyExists => if step == CommitStep::CopyToFinal {
                CommitStep::Conflict
            } else {
                CommitStep::Failed
            },
            StoreEvent::Done => match step {
                CommitStep::PutTemp => CommitStep::CopyToFinal,
                CommitStep::CopyToFinal => CommitStep::DeleteTemp,
                CommitStep::DeleteTemp => CommitStep::Reload,
                _ => CommitStep::Committed,
            },
        },
    }
}

impl CommitStep {
    /// The step that follows this one when its request ended with `event`.
    /// A finished commit stays finished.
    pub fn next(self, event: StoreEvent) -> (r: CommitStep)
        ensures
            r == next_step_spec(self, event),
    {
        match self {
            CommitStep::Committed | CommitStep::Conflict | CommitStep::Failed => self,
            _ => match event {
                StoreEvent::Failed => CommitStep::Failed,
                StoreEvent::AlreadyExists => match self {
                    CommitStep::CopyToFinal => CommitStep::Conflict,
                    _ => CommitStep::Failed,
                },
                StoreEvent::Done => match self {
                    CommitStep::PutTemp => CommitStep::CopyToFinal,
                    CommitStep::CopyToFinal => CommitStep::DeleteTemp,
                    CommitStep::DeleteTemp => CommitStep::Reload,
                    _ => CommitStep::Committed,
                },
            },
        }
    }

    /// Whether the commit has ended.
    pub fn is_finished(&self) -> (r: bool)
        ensures
            r == (*self is Committed || *self is Conflict || *self is Failed),
    {
        match self {
            CommitStep::Committed | CommitStep::Conflict | CommitStep::Failed => true,
            _ => false,
        }
    }

    /// The result of a finished commit: a conflict and a failure are reported
    /// apart, so that a caller can retry the first from fresh metadata.
    pub fn outcome(&self) -> (r: Result<(), IcebergError>)
        ensures
            r is Ok <==> *self is Committed,
            *self is Conflict ==> r is Err && r->Err_0 is Conflict,
            !(*self is Committed) && !(*self is Conflict) ==> r is Err && r->Err_0 is Message,
    {
        match self {
            CommitStep::Committed => Ok(()),
            CommitStep::Conflict => Err(IcebergError::Conflict(
                String::from_str("The metadata version was committed by another writer."),
            )),
            _ => Err(IcebergError::Message(String::from_str("The commit did not finish."))),
        }
    }
}

/// The location a catalog records for a table after a conditional update
/// from `previous` to `new`, and whether the update took place.
pub open spec fn swap_spec(current: Seq<char>, previous: Seq<char>, new: Seq<char>) -> (Seq<char>, bool) {
    if current == previous { (new, true) } else { (current, false) }
}

/// The metadata location a catalog records for a table, updated only by a
/// compare-and-swap against the location the writer read.
#[derive(Debug)]
pub struct MetadataPointer {
    location: String,
}

impl MetadataPointer {
    /// The recorded location.
    pub closed spec fn view(&self) -> Seq<char> {
        self.location@
    }

    /// A pointer to `location`.
    pub fn new(location: String) -> (r: MetadataPointer)
        ensures
            r.view() == location@,
    {
        MetadataPointer { location }
    }

    /// The recorded location.
    pub fn location(&self) -> (r: &str)
        ensures
            r@ == self.view(),
    {
        self.location.as_str()
    }

    /// Point to `new` if the recorded location is still `previous`; otherwise
    /// leave it and report a conflict.
    pub fn update(&mut self, previous: &str, new: String) -> (r: Result<(), IcebergError>)
        ensures
            final(self).view() == swap_spec(old(self).view(), previous@, new@).0,
            r is Ok <==> swap_spec(old(self).view(), previous@, new@).1,
            r is Err ==> r->Err_0 is Conflict,
    {
        if text_eq(self.location.as_str(), previous) {
            self.location = new;
            Ok(())
        } else {
            Err(IcebergError::Conflict(String::from_str("The table was changed by another writer.")))
        }
    }
}

/// Two writers that read the same current location and commit against it,
/// one after the other, each to a fresh location: exactly one succeeds.
pub proof fn lemma_concurrent_commits(current: Seq<char>, new1: Seq<char>, new2: Seq<char>)
    requires
        new1 != current,
    ensures
        swap_spec(current, current, new1).1,
        !swap_spec(swap_spec(current, current, new1).0, current, new2).1,
        swap_spec(current, current, new2).1,
        new2 != current ==> !swap_spec(swap_spec(current, current, new2).0, current, new1).1,
{
}

/// Two writers of a file system table that commit the same version: once the
/// first copy to the canonical name is done, the second finds it there and
/// its commit ends in a conflict, while the first goes on.
pub proof fn lemma_same_version_conflicts()
    ensures
        next_step_spec(CommitStep::CopyToFinal, StoreEvent::Done) == CommitStep::DeleteTemp,
        next_step_spec(CommitStep::CopyToFinal, StoreEvent::AlreadyExists) == CommitStep::Conflict,
{
}

/// The outcome of a create-if-not-exists copy to `target` in a store that
/// holds the paths `existing`, and the paths it holds afterwards.
pub open spec fn copy_if_not_exists_spec(existing: Set<Seq<char>>, target: Seq<char>) -> (StoreEvent, Set<Seq<char>>) {
    if existing.contains(target) {
        (StoreEvent::AlreadyExists, existing)
    } else {
        (StoreEvent::Done, existing.insert(target))
    }
}

/// Two writers of a file system table that both reach the copy of the same
/// version to its canonical name, against a store without that name, in
/// either order: the first goes on to delete its temporary file, the second
/// ends in a conflict. Exactly one of them can commit.
pub proof fn lemma_one_copy_wins(existing: Set<Seq<char>>, target: Seq<char>)
    requires
        !existing.contains(target),
    ensures
        ({
            let (first, after) = copy_if_not_exists_spec(existing, target);
            let (second, _) = copy_if_not_exists_spec(after, target);
            &&& next_step_spec(CommitStep::CopyToFinal, first) == CommitStep::DeleteTemp
            &&& next_step_spec(CommitStep::CopyToFinal, second) == CommitStep::Conflict
        }),
{
}

/// A commit copies to the canonical name at most once: no step but the
/// first write leads to the copy, and a finished commit stays finished.
pub proof fn lemma_no_retry(step: CommitStep, event: StoreEvent)
    ensures
        step != CommitStep::PutTemp ==> next_step_spec(step, event) != CommitStep::CopyToFinal,
        (step is Committed || step is Conflict || step is Failed) ==> next_step_spec(step, event) == step,
{
}

/// Whether `s` ends with `post`.
pub open spec fn ends_with(s: Seq<char>, post: Seq<char>) -> bool {
    s.len() >= post.len() && s.subrange(s.len() - post.len(), s.len() as int) == post
}

/// `s` without its leading `v`s.
pub open spec fn trim_v(s: Seq<char>) -> Seq<char>
    decreases s.len(),
{
    if s.len() > 0 && s[0] == 'v' { trim_v(s.drop_first()) } else { s }
}

/// The integer that `s` writes, as `i64` parsing reads it: an optional sign
/// and a run of digits, in range.
pub open spec fn i64_from_text(s: Seq<char>) -> Option<i64> {
    if s.len() > 0 && s[0] == '-' {
        let d = s.drop_first();
        if all_digits(d) && digits_value(d) <= 0x8000_0000_0000_0000 {
            Some((-(digits_value(d) as int)) as i64)
        } else {
            None
        }
    } else {
        let d = if s.len() > 0 && s[0] == '+' { s.drop_first() } else { s };
        if all_digits(d) && digits_value(d) <= 0x7fff_ffff_ffff_ffff {
            Some(digits_value(d) as i64)
        } else {
            None
        }
    }
}

/// The version a metadata file name writes: `v<N>.metadata.json`, with any
/// number of leading `v`s. `None` for another file; an error where the
/// version is not an integer.
pub open spec fn name_version(name: Seq<char>) -> Option<Option<i64>> {
    if ends_with(name, ".metadata.json"@) {
        let stem = trim_v(name.subrange(0, name.len() - ".metadata.json"@.len()));
        match i64_from_text(stem) {
            Some(v) => Some(Some(v)),
            None => None,
        }
    } else {
        Some(None)
    }
}

/// The highest version among the first `k` names, starting from 0; `None`
/// when one of them is a metadata file whose version is not an integer.
pub open spec fn latest_upto(names: Seq<Seq<char>>, k: nat) -> Option<i64>
    decreases k,
{
    if k == 0 {
        Some(0)
    } else {
        match (latest_upto(names, (k - 1) as nat), name_version(names[k - 1])) {
            (Some(acc), Some(Some(v))) => Some(if v > acc { v } else { acc }),
            (Some(acc), Some(None)) => Some(acc),
            _ => None,
        }
    }
}

fn trim_leading_v(s: &str) -> (r: &str)
    ensures
        r@ == trim_v(s@),
{
    let n = s.unicode_len();
    let mut i: usize = 0;
    assert(s@.subrange(0, n as int) =~= s@);
    while i < n && s.get_char(i) == 'v'
        invariant
            n == s@.len(),
            i <= n,
            trim_v(s@) == trim_v(s@.subrange(i as int, n as int)),
        decreases n - i,
    {
        assert(s@.subrange(i as int, n as int).drop_first() =~= s@.subrange(i + 1, n as int));
        i = i + 1;
    }
    let r = s.substring_char(i, n);
    proof {
        if i == 0 {
            assert(s@.subrange(0, n as int) =~= s@);
        }
    }
    r
}

/// The integer that `s` writes, as `i64` parsing reads it.
pub fn parse_i64(s: &str) -> (r: Option<i64>)
    ensures
        r == i64_from_text(s@),
{
    let n = s.unicode_len();
    if n > 0 && s.get_char(0) == '-' {
        let d = s.substring_char(1, n);
        assert(d@ =~= s@.drop_first());
        match parse_uint(d, 0x8000_0000_0000_0000) {
            Some(v) => {
                if v == 0x8000_0000_0000_0000 {
                    Some(i64::MIN)
                } else {
                    Some(-(v as i64))
                }
            },
            None => None,
        }
    } else {
        let d = if n > 0 && s.get_char(0) == '+' { s.substring_char(1, n) } else { s };
        proof {
            if n > 0 && s@[0] == '+' {
                assert(d@ =~= s@.drop_first());
            }
        }
        match parse_uint(d, 0x7fff_ffff_ffff_ffff) {
            Some(v) => Some(v as i64),
            None => None,
        }
    }
}

/// The version of a metadata file name; see `name_version`.
fn file_version(name: &str) -> (r: Option<Option<i64>>)
    ensures
        r == name_version(name@),
{
    let suffix = ".metadata.json";
    let n = name.unicode_len();
    let m = suffix.unicode_len();
    if n < m || !text_eq(name.substring_char(n - m, n), suffix) {
        return Some(None);
    }
    let stem = trim_leading_v(name.substring_char(0, n - m));
    match parse_i64(stem) {
        Some(v) => Some(Some(v)),
        None => None,
    }
}

/// The current version of a file system table, from the names of the files
/// in its metadata directory: the highest `N` of the names `v<N>.metadata.json`,
/// and 0 when there is none. A metadata file name whose version is not an
/// integer is a format error.
pub fn latest_version(file_names: &Vec<String>) -> (r: Result<i64, IcebergError>)
    ensures
        r is Ok <==> latest_upto(crate::catalog::views(file_names@), file_names@.len()) is Some,
        r is Ok ==> r->Ok_0 == latest_upto(crate::catalog::views(file_names@), file_names@.len())->Some_0,
        r is Err ==> r->Err_0 is Format,
{
    let ghost names = crate::catalog::views(file_names@);
    let mut acc: i64 = 0;
    let mut i: usize = 0;
    while i < file_names.len()
        invariant
            i <= file_names@.len(),
            names == crate::catalog::views(file_names@),
            latest_upto(names, i as nat) == Some(acc),
        decreases file_names@.len() - i,
    {
        assert(names[i as int] == file_names@[i as int]@);
        match file_version(file_names[i].as_str()) {
            Some(Some(v)) => {
                if v > acc {
                    acc = v;
                }
            },
            Some(None) => {},
            None => {
                proof { lemma_latest_none(names, (i + 1) as nat, file_names@.len()); }
                return Err(IcebergError::Format(String::from_str("Invalid metadata file version.")));
            },
        }
        i = i + 1;
    }
    Ok(acc)
}

proof fn lemma_latest_none(names: Seq<Seq<char>>, k: nat, n: nat)
    requires
        k <= n,
        latest_upto(names, k) is None,
    ensures
        latest_upto(names, n) is None,
    decreases n - k,
{
    if k < n {
        lemma_latest_none(names, k + 1, n);
    }
}

} // verus!
