//! User-namespace identity mapping: the uid/gid translation tables, their
//! validity rules, the exact text of the control records, and the writer
//! that turns a validated table into an ordered write plan exactly once
//! per target process.

use vstd::prelude::*;
use vstd::string::StringExecFns;

use crate::ID_LIMIT;
use crate::decimal::{dec_rep, u64_to_dec};
use crate::errors::MapError;

verus! {

/// One `(namespace_id_start, host_id_start, length)` mapping range.
#[derive(Clone, Copy, Debug, PartialEq, Eq, Structural)]
pub struct MapEntry {
    pub ns_start: u64,
    pub host_start: u64,
    pub length: u64,
}

/// A single range is well formed when it is non-empty and both its
/// namespace-side and host-side intervals stay within the kernel id space.
pub open spec fn entry_ok(e: MapEntry) -> bool {
    &&& 1 <= e.length
    &&& e.ns_start + e.length <= ID_LIMIT + 1
    &&& e.host_start + e.length <= ID_LIMIT + 1
}

/// Two ranges overlap in neither their namespace-side nor their host-side
/// intervals.
pub open spec fn entries_disjoint(a: MapEntry, b: MapEntry) -> bool {
    &&& (a.ns_start + a.length <= b.ns_start || b.ns_start + b.length <= a.ns_start)
    &&& (a.host_start + a.length <= b.host_start || b.host_start + b.length <= a.host_start)
}

/// A whole uid or gid table is well formed: non-empty, every range well
/// formed, ranges pairwise non-overlapping, and some range starting at
/// namespace id `0` so the mapped process keeps identity continuity.
pub open spec fn table_ok(s: Seq<MapEntry>) -> bool {
    &&& s.len() >= 1
    &&& forall|i: int| 0 <= i < s.len() ==> entry_ok(#[trigger] s[i])
    &&& forall|i: int, j: int|
        0 <= i < j < s.len() ==> entries_disjoint(#[trigger] s[i], #[trigger] s[j])
    &&& exists|i: int| 0 <= i < s.len() && (#[trigger] s[i]).ns_start == 0
}

/// The uid and gid translation tables of one launch.
#[derive(Debug)]
pub struct IdentityMapping {
    pub uid_entries: Vec<MapEntry>,
    pub gid_entries: Vec<MapEntry>,
}

impl IdentityMapping {
    /// Both tables are well formed.
    pub open spec fn wf(&self) -> bool {
        table_ok(self.uid_entries@) && table_ok(self.gid_entries@)
    }
}

fn check_entry(e: &MapEntry) -> (b: bool)
    ensures
        b == entry_ok(*e),
{
    1 <= e.length && e.length <= ID_LIMIT + 1 && e.ns_start <= ID_LIMIT + 1 - e.length
        && e.host_start <= ID_LIMIT + 1 - e.length
}

fn check_disjoint(a: &MapEntry, b: &MapEntry) -> (r: bool)
    requires
        entry_ok(*a),
        entry_ok(*b),
    ensures
        r == entries_disjoint(*a, *b),
{
    (a.ns_start + a.length <= b.ns_start || b.ns_start + b.length <= a.ns_start) && (a.host_start
        + a.length <= b.host_start || b.host_start + b.length <= a.host_start)
}

/// Decides whether one uid or gid table is well formed.
pub fn check_table(v: &Vec<MapEntry>) -> (b: bool)
    ensures
        b == table_ok(v@),
{
    if v.len() == 0 {
        return false;
    }
    let n = v.len();
    let mut i: usize = 0;
    while i < n
        invariant
            n == v@.len(),
            i <= n,
            forall|k: int| 0 <= k < i ==> entry_ok(#[trigger] v@[k]),
        decreases n - i,
    {
        if !check_entry(&v[i]) {
            return false;
        }
        i += 1;
    }
    i = 0;
    while i < n
        invariant
            n == v@.len(),
            i <= n,
            forall|k: int| 0 <= k < n ==> entry_ok(#[trigger] v@[k]),
            forall|k: int, l: int|
                0 <= k < l < n && k < i ==> entries_disjoint(#[trigger] v@[k], #[trigger] v@[l]),
        decreases n - i,
    {
        let mut j: usize = i + 1;
        while j < n
            invariant
                n == v@.len(),
                i < n,
                i + 1 <= j <= n,
                forall|k: int| 0 <= k < n ==> entry_ok(#[trigger] v@[k]),
                forall|l: int| i < l < j ==> entries_disjoint(#[trigger] v@[i as int], #[trigger] v@[l]),
            decreases n - j,
        {
            if !check_disjoint(&v[i], &v[j]) {
                return false;
            }
            j += 1;
        }
        i += 1;
    }
    let mut found: bool = false;
    i = 0;
    while i < n
        invariant
            n == v@.len(),
            i <= n,
            found == exists|k: int| 0 <= k < i && (#[trigger] v@[k]).ns_start == 0,
        decreases n - i,
    {
        if v[i].ns_start == 0 {
            found = true;
        }
        i += 1;
    }
    found
}

/// The text of one mapping record: the three fields in base ten, separated
/// by single spaces.
pub open spec fn entry_line(e: MapEntry) -> Seq<char> {
    dec_rep(e.ns_start as nat) + seq![' '] + dec_rep(e.host_start as nat) + seq![
        ' ',
    ] + dec_rep(e.length as nat)
}

/// The text of a whole table: one record per line, newline-separated.
pub open spec fn table_text(s: Seq<MapEntry>) -> Seq<char>
    decreases s.len(),
{
    if s.len() == 0 {
        Seq::empty()
    } else if s.len() == 1 {
        entry_line(s[0])
    } else {
        table_text(s.drop_last()) + seq!['\n'] + entry_line(s.last())
    }
}

fn render_entry(e: &MapEntry) -> (r: String)
    ensures
        r@ == entry_line(*e),
{
    proof {
        reveal_strlit(" ");
    }
    let mut out = u64_to_dec(e.ns_start);
    out.append(" ");
    let host = u64_to_dec(e.host_start);
    out.append(host.as_str());
    out.append(" ");
    let len = u64_to_dec(e.length);
    out.append(len.as_str());
    proof {
        assert(" "@ =~= seq![' ']);
        assert(out@ =~= entry_line(*e));
    }
    out
}

/// Renders a whole uid or gid table as the kernel control file expects it.
pub fn render_table(v: &Vec<MapEntry>) -> (r: String)
    ensures
        r@ == table_text(v@),
{
    let mut out = String::new();
    let mut i: usize = 0;
    while i < v.len()
        invariant
            i <= v@.len(),
            out@ == table_text(v@.take(i as int)),
        decreases v@.len() - i,
    {
        if i > 0 {
            out.append("\n");
        }
        let line = render_entry(&v[i]);
        out.append(line.as_str());
        proof {
            reveal_strlit("\n");
            assert("\n"@ =~= seq!['\n']);
            assert(v@.take(i + 1 as int).drop_last() =~= v@.take(i as int));
            assert(v@.take(i + 1 as int).last() == v@[i as int]);
            assert(out@ =~= table_text(v@.take(i + 1 as int)));
        }
        i += 1;
    }
    proof {
        assert(v@.take(v@.len() as int) =~= v@);
    }
    out
}

/// The control file under `/proc/<pid>/` with the given name.
pub open spec fn proc_control_path(pid: u64, name: Seq<char>) -> Seq<char> {
    "/proc/"@ + dec_rep(pid as nat) + "/"@ + name
}

fn render_proc_path(pid: u64, name: &str) -> (r: String)
    ensures
        r@ == proc_control_path(pid, name@),
{
    let mut out = String::from_str("/proc/");
    let digits = u64_to_dec(pid);
    out.append(digits.as_str());
    out.append("/");
    out.append(name);
    proof {
        assert(out@ =~= proc_control_path(pid, name@));
    }
    out
}

/// One pending control-file write: where, and the exact bytes.
#[derive(Debug)]
pub struct MapWrite {
    pub path: String,
    pub contents: String,
}

/// The text that denies further group changes in the target process.
pub open spec fn deny_text() -> Seq<char> {
    "deny"@
}

/// Writes uid/gid mapping records for target processes from the host side.
/// Validation happens before any write is planned, and each process id is
/// mapped at most once for the writer's lifetime.
pub struct IdentityMapWriter {
    mapped: Vec<u64>,
}

impl IdentityMapWriter {
    /// The process ids this writer has already mapped, in order.
    pub closed spec fn mapped_pids(&self) -> Seq<u64> {
        self.mapped@
    }

    pub fn new() -> (r: IdentityMapWriter)
        ensures
            r.mapped_pids() == Seq::<u64>::empty(),
    {
        IdentityMapWriter { mapped: Vec::new() }
    }

    fn already_mapped(&self, pid: u64) -> (r: bool)
        ensures
            r == self.mapped_pids().contains(pid),
    {
        let mut i: usize = 0;
        let mut found: bool = false;
        while i < self.mapped.len()
            invariant
                i <= self.mapped@.len(),
                found == exists|k: int| 0 <= k < i && self.mapped@[k] == pid,
            decreases self.mapped@.len() - i,
        {
            if self.mapped[i] == pid {
                found = true;
            }
            i += 1;
        }
        found
    }

    /// Plans the identity-mapping writes for the process `pid`.
    ///
    /// The tables are validated first: a malformed or overlapping mapping is
    /// rejected with `InvalidMapping` and no write is planned. A process id
    /// this writer has already mapped is rejected with `AlreadyMapped`, again
    /// with no write planned and the existing record kept. On success the
    /// plan holds exactly three writes in the mandated order: the
    /// group-change-deny directive, then the gid table, then the uid table.
    pub fn apply(&mut self, pid: u64, mapping: &IdentityMapping) -> (r: Result<
        Vec<MapWrite>,
        MapError,
    >)
        ensures
            !mapping.wf() ==> (r matches Err(e) && e is InvalidMapping),
            mapping.wf() && old(self).mapped_pids().contains(pid) ==> (r matches Err(e) && e
                is AlreadyMapped),
            r is Err ==> final(self).mapped_pids() == old(self).mapped_pids(),
            mapping.wf() && !old(self).mapped_pids().contains(pid) ==> (r matches Ok(plan) && {
                &&& final(self).mapped_pids() == old(self).mapped_pids().push(pid)
                &&& plan@.len() == 3
                &&& plan@[0].path@ == proc_control_path(pid, "setgroups"@)
                &&& plan@[0].contents@ == deny_text()
                &&& plan@[1].path@ == proc_control_path(pid, "gid_map"@)
                &&& plan@[1].contents@ == table_text(mapping.gid_entries@)
                &&& plan@[2].path@ == proc_control_path(pid, "uid_map"@)
                &&& plan@[2].contents@ == table_text(mapping.uid_entries@)
            }),
    {
        if !(check_table(&mapping.uid_entries) && check_table(&mapping.gid_entries)) {
            return Err(MapError::InvalidMapping);
        }
        if self.already_mapped(pid) {
            return Err(MapError::AlreadyMapped);
        }
        let mut plan: Vec<MapWrite> = Vec::new();
        plan.push(
            MapWrite {
                path: render_proc_path(pid, "setgroups"),
                contents: String::from_str("deny"),
            },
        );
        plan.push(
            MapWrite {
                path: render_proc_path(pid, "gid_map"),
                contents: render_table(&mapping.gid_entries),
            },
        );
        plan.push(
            MapWrite {
                path: render_proc_path(pid, "uid_map"),
                contents: render_table(&mapping.uid_entries),
            },
        );
        self.mapped.push(pid);
        Ok(plan)
    }
}

/// Relies on `nix::unistd::getuid`: returns the caller's real user id, a
/// 32-bit kernel id.
#[verifier::external_body]
fn host_real_uid() -> (r: u64)
    ensures
        r <= ID_LIMIT,
{
    nix::unistd::getuid().as_raw() as u64
}

/// Relies on `nix::unistd::getgid`: returns the caller's real group id, a
/// 32-bit kernel id.
#[verifier::external_body]
fn host_real_gid() -> (r: u64)
    ensures
        r <= ID_LIMIT,
{
    nix::unistd::getgid().as_raw() as u64
}

/// The single-range mapping that makes namespace id `0` stand for the given
/// host ids.
pub fn root_mapping(host_uid: u64, host_gid: u64) -> (r: IdentityMapping)
    requires
        host_uid <= ID_LIMIT,
        host_gid <= ID_LIMIT,
    ensures
        r.uid_entries@ == seq![(MapEntry { ns_start: 0, host_start: host_uid, length: 1 })],
        r.gid_entries@ == seq![(MapEntry { ns_start: 0, host_start: host_gid, length: 1 })],
        r.wf(),
{
    let mut uid_entries: Vec<MapEntry> = Vec::new();
    uid_entries.push(MapEntry { ns_start: 0, host_start: host_uid, length: 1 });
    let mut gid_entries: Vec<MapEntry> = Vec::new();
    gid_entries.push(MapEntry { ns_start: 0, host_start: host_gid, length: 1 });
    let r = IdentityMapping { uid_entries, gid_entries };
    proof {
        assert(r.uid_entries@ =~= seq![(MapEntry { ns_start: 0, host_start: host_uid, length: 1 })]);
        assert(r.gid_entries@ =~= seq![(MapEntry { ns_start: 0, host_start: host_gid, length: 1 })]);
        assert(r.uid_entries@[0].ns_start == 0);
        assert(r.gid_entries@[0].ns_start == 0);
    }
    r
}

/// The mapping the bootstrap uses when the spec does not carry one of its
/// own: namespace id `0` maps to the host's current real uid and gid.
pub fn current_user_root_mapping() -> (r: IdentityMapping)
    ensures
        r.wf(),
{
    let uid = host_real_uid();
    let gid = host_real_gid();
    root_mapping(uid, gid)
}

} // verus!
