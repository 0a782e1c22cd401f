//! Cached entries: data stamped with the time it was cached and whether it can
//! ever change, and the rule that decides whether an entry may still be used.

use vstd::prelude::*;
use crate::clock;
use crate::paths;
use vstd::string::*;

verus! {

/// How long mutable data stays valid: five minutes, in milliseconds.
pub const DEFAULT_TTL: u64 = 300000;

/// Data with its cache metadata.
#[derive(Clone, Debug)]
pub struct CachedData<T> {
    /// The cached data.
    pub data: T,
    /// When the data was cached, in milliseconds since the epoch.
    pub cached_at: i64,
    /// Whether the data can never change (completed runs, logs).
    pub immutable: bool,
}

/// Whether an entry cached at `cached_at` may be used at `now` under `ttl`.
pub open spec fn valid_at(immutable: bool, cached_at: i64, now: i64, ttl: u64) -> bool {
    immutable || now - cached_at <= ttl
}

impl<T> CachedData<T> {
    /// An entry stamped with the time `now`.
    pub fn new_at(data: T, immutable: bool, now: i64) -> (r: Self)
        ensures
            r.data == data,
            r.immutable == immutable,
            r.cached_at == now,
    {
        CachedData { data, cached_at: now, immutable }
    }

    /// An entry stamped with the current time.
    pub fn new(data: T, immutable: bool) -> (r: Self)
        ensures
            r.data == data,
            r.immutable == immutable,
    {
        let t = clock::now();
        CachedData::new_at(data, immutable, t.millis)
    }

    /// Whether the entry may still be used at `now`: always when immutable,
    /// else when no more than `ttl` milliseconds have passed since it was cached.
    pub fn is_valid_at(&self, now: i64, ttl: u64) -> (r: bool)
        ensures
            r == valid_at(self.immutable, self.cached_at, now, ttl),
    {
        if self.immutable {
            true
        } else {
            (now as i128) - (self.cached_at as i128) <= ttl as i128
        }
    }

    /// Whether the entry has outlived `ttl` at `now`.
    pub fn is_expired_at(&self, now: i64, ttl: u64) -> (r: bool)
        ensures
            r == !valid_at(self.immutable, self.cached_at, now, ttl),
    {
        !self.is_valid_at(now, ttl)
    }

    /// Whether the entry is still valid now.
    pub fn is_valid(&self, ttl: u64) -> (r: bool)
        ensures
            self.immutable ==> r,
            exists|now: i64| r == valid_at(self.immutable, self.cached_at, now, ttl),
    {
        let t = clock::now();
        self.is_valid_at(t.millis, ttl)
    }

    /// Whether the entry has expired now.
    pub fn is_expired(&self, ttl: u64) -> (r: bool)
        ensures
            self.immutable ==> !r,
            exists|now: i64| r == !valid_at(self.immutable, self.cached_at, now, ttl),
    {
        let t = clock::now();
        self.is_expired_at(t.millis, ttl)
    }
}

/// An immutable entry is valid under any TTL, zero included, at any time.
pub proof fn law_immutable_always_valid(cached_at: i64, now: i64, ttl: u64)
    ensures
        valid_at(true, cached_at, now, ttl),
{
}

/// A mutable entry is valid while its age is at most the TTL, and invalid once
/// it is older.
pub proof fn law_mutable_expires(cached_at: i64, now: i64)
    ensures
        now - cached_at <= DEFAULT_TTL ==> valid_at(false, cached_at, now, DEFAULT_TTL),
        now - cached_at > DEFAULT_TTL ==> !valid_at(false, cached_at, now, DEFAULT_TTL),
{
}

/// The data of an entry read from the cache, if it is still valid at `now`.
pub fn read_if_valid_at<T>(entry: Option<CachedData<T>>, now: i64, ttl: u64) -> (r: Option<T>)
    ensures
        match entry {
            Some(e) => if valid_at(e.immutable, e.cached_at, now, ttl) {
                r == Some(e.data)
            } else {
                r is None
            },
            None => r is None,
        },
{
    match entry {
        Some(e) => {
            if e.is_valid_at(now, ttl) {
                Some(e.data)
            } else {
                None
            }
        },
        None => None,
    }
}

/// A file-system step that the caller performs in order.
#[derive(Clone, Debug)]
pub enum FsOp {
    /// Create the directories that lead to `path`.
    CreateParentDirs { path: String },
    /// Create or truncate `path` and write `contents` to it.
    WriteFile { path: String, contents: String },
    /// Flush `path` to the disk.
    SyncFile { path: String },
    /// Move `from` over `to` in one step, replacing it.
    Rename { from: String, to: String },
    /// Remove `path` if it exists.
    RemoveFile { path: String },
    /// Remove the directory `path` and everything under it, if it exists.
    RemoveTree { path: String },
}

/// Files of a directory tree: path to contents.
pub type Files = Map<Seq<char>, Seq<char>>;

/// Whether `p` lies under the directory `dir`.
pub open spec fn under_dir(p: Seq<char>, dir: Seq<char>) -> bool {
    p.len() > dir.len() && p.subrange(0, dir.len() as int + 1) == dir.push('/')
}

/// The files after one step.
pub open spec fn apply_op(fs: Files, op: FsOp) -> Files {
    match op {
        FsOp::CreateParentDirs { .. } => fs,
        FsOp::WriteFile { path, contents } => fs.insert(path@, contents@),
        FsOp::SyncFile { .. } => fs,
        FsOp::Rename { from, to } => if fs.contains_key(from@) {
            fs.remove(from@).insert(to@, fs[from@])
        } else {
            fs
        },
        FsOp::RemoveFile { path } => fs.remove(path@),
        FsOp::RemoveTree { path } => fs.restrict(fs.dom().filter(|p: Seq<char>| p != path@ && !under_dir(p, path@))),
    }
}

/// The files after the steps in order.
pub open spec fn apply_ops(fs: Files, ops: Seq<FsOp>) -> Files
    decreases ops.len(),
{
    if ops.len() == 0 {
        fs
    } else {
        apply_op(apply_ops(fs, ops.drop_last()), ops.last())
    }
}

/// The temporary file next to `path` that a write goes through.
pub open spec fn temp_of(path: Seq<char>) -> Seq<char> {
    path + seq!['.', 't', 'm', 'p']
}

/// The temporary file next to `path`.
pub fn temp_path(path: &str) -> (r: String)
    ensures
        r@ == temp_of(path@),
{
    let mut t = String::from_str(path);
    t.push('.');
    t.push('t');
    t.push('m');
    t.push('p');
    assert(t@ =~= temp_of(path@));
    t
}

/// Whether `ops` is the atomic write of `contents` to `path`: create the
/// directories, write a temporary file beside it, flush it, and rename it
/// over the target.
pub open spec fn is_atomic_write(ops: Seq<FsOp>, path: Seq<char>, contents: Seq<char>) -> bool {
    &&& ops.len() == 4
    &&& ops[0] is CreateParentDirs && ops[0]->CreateParentDirs_path@ == path
    &&& ops[1] is WriteFile && ops[1]->WriteFile_path@ == temp_of(path) && ops[1]->contents@ == contents
    &&& ops[2] is SyncFile && ops[2]->SyncFile_path@ == temp_of(path)
    &&& ops[3] is Rename && ops[3]->from@ == temp_of(path) && ops[3]->to@ == path
}

/// The steps that write `contents` to `path` atomically, so that a crash at
/// any point leaves the old file whole or the new one.
pub fn write_plan(path: &str, contents: String) -> (r: Vec<FsOp>)
    ensures
        is_atomic_write(r@, path@, contents@),
{
    let temp = temp_path(path);
    let mut ops: Vec<FsOp> = Vec::new();
    ops.push(FsOp::CreateParentDirs { path: String::from_str(path) });
    ops.push(FsOp::WriteFile { path: temp.clone(), contents });
    ops.push(FsOp::SyncFile { path: temp.clone() });
    ops.push(FsOp::Rename { from: temp, to: String::from_str(path) });
    ops
}

/// Writing atomically: before the rename, a crash after any number of steps
/// leaves the target as it was (absent, or with its old contents); after the
/// last step the target holds the new contents, which a read then returns.
pub proof fn law_atomic_write(fs: Files, ops: Seq<FsOp>, path: Seq<char>, contents: Seq<char>)
    requires
        is_atomic_write(ops, path, contents),
    ensures
        forall|k: int|
            0 <= k < 4 ==> (#[trigger] apply_ops(fs, ops.subrange(0, k))).contains_key(path) == fs.contains_key(path)
                && (fs.contains_key(path) ==> apply_ops(fs, ops.subrange(0, k))[path] == fs[path]),
        apply_ops(fs, ops).contains_key(path),
        apply_ops(fs, ops)[path] == contents,
{
    let t = temp_of(path);
    assert(t.len() > path.len());
    assert(t != path);
    let p0 = ops.subrange(0, 0);
    let p1 = ops.subrange(0, 1);
    let p2 = ops.subrange(0, 2);
    let p3 = ops.subrange(0, 3);
    assert(p0 =~= Seq::<FsOp>::empty());
    assert(p1.drop_last() =~= p0 && p1.last() == ops[0]);
    assert(p2.drop_last() =~= p1 && p2.last() == ops[1]);
    assert(p3.drop_last() =~= p2 && p3.last() == ops[2]);
    assert(ops.drop_last() =~= p3 && ops.last() == ops[3]);
    let s0 = apply_ops(fs, p0);
    let s1 = apply_ops(fs, p1);
    let s2 = apply_ops(fs, p2);
    let s3 = apply_ops(fs, p3);
    assert(s0 == fs);
    assert(s1 == apply_op(s0, ops[0]));
    assert(s2 == apply_op(s1, ops[1]));
    assert(s3 == apply_op(s2, ops[2]));
    assert(apply_ops(fs, ops) == apply_op(s3, ops[3]));
    assert(s1 == fs);
    assert(s2 == fs.insert(t, contents));
    assert(s3 == s2);
    assert(s3.contains_key(t) && s3[t] == contents);
    assert forall|k: int|
        0 <= k < 4 implies (#[trigger] apply_ops(fs, ops.subrange(0, k))).contains_key(path) == fs.contains_key(path)
            && (fs.contains_key(path) ==> apply_ops(fs, ops.subrange(0, k))[path] == fs[path]) by {
        if k == 0 {
        } else if k == 1 {
        } else if k == 2 {
        } else {
        }
    }
}

/// The removal of an owner's cached tree, where the platform has a cache.
pub fn invalidate_owner(owner: &str) -> (r: Option<FsOp>)
    ensures
        r matches Some(op) ==> op is RemoveTree && paths::ends_with_path(op->RemoveTree_path@, paths::owner_dir_rel(owner@)),
{
    match paths::owner_dir(owner) {
        Some(d) => Some(FsOp::RemoveTree { path: d }),
        None => None,
    }
}

/// The removal of a repository's cached tree, where the platform has a cache.
pub fn invalidate_repo(owner: &str, repo: &str) -> (r: Option<FsOp>)
    ensures
        r matches Some(op) ==> op is RemoveTree && paths::ends_with_path(
            op->RemoveTree_path@,
            paths::repo_dir_rel(owner@, repo@),
        ),
{
    match paths::repo_dir(owner, repo) {
        Some(d) => Some(FsOp::RemoveTree { path: d }),
        None => None,
    }
}

} // verus!
