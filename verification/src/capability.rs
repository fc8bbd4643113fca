//! CapabilityGovernor: computes and applies the minimal capability set for
//! the isolated process. The decision — whether the allow-list is a subset
//! of what the process holds, and what the three kernel sets look like
//! afterwards — is verified; the kernel calls that carry it out go through
//! trusted wrappers around the `caps` crate.

use vstd::prelude::*;
use vstd::string::StringExecFns;

use crate::errors::CapError;

verus! {

/// The `caps` crate's error type, opaque here: every wrapper failure is
/// mapped to this library's own `CapError` by the verified callers.
#[verifier::external_type_specification]
#[verifier::external_body]
pub struct ExCapsError(caps::errors::CapsError);

/// A capability set of the calling thread, as `capset(2)` distinguishes
/// them. The bounding and ambient sets are outside this core's scope.
#[derive(Clone, Copy, Debug, PartialEq, Eq, Structural)]
pub enum CapSetKind {
    Effective,
    Permitted,
    Inheritable,
}

/// The set of capability identifiers retained after the drop, each by its
/// canonical `CAP_*` name. The drop can only narrow privilege: applying the
/// list fails unless it is a subset of what the process already holds.
pub struct CapabilityAllowList {
    pub names: Vec<String>,
}

/// The identifiers of a name list, as character sequences.
pub open spec fn name_views(v: Seq<String>) -> Seq<Seq<char>> {
    v.map_values(|s: String| s@)
}

/// Every identifier of `a` occurs in `b`.
pub open spec fn names_subset(a: Seq<Seq<char>>, b: Seq<Seq<char>>) -> bool {
    forall|i: int| 0 <= i < a.len() ==> b.contains(#[trigger] a[i])
}

impl CapabilityAllowList {
    /// The identifiers on this list, as character sequences.
    pub open spec fn ids(&self) -> Seq<Seq<char>> {
        name_views(self.names@)
    }

    pub fn new(names: Vec<String>) -> (r: CapabilityAllowList)
        ensures
            r.ids() == name_views(names@),
    {
        CapabilityAllowList { names }
    }
}

/// The bootstrap's stock allow-list: the five capabilities a freshly
/// mapped container root keeps — file ownership and permission override,
/// and the identity switches — and nothing else.
pub fn default_allow_list() -> (r: CapabilityAllowList)
    ensures
        r.ids() =~= seq![
            "CAP_CHOWN"@,
            "CAP_DAC_OVERRIDE"@,
            "CAP_FOWNER"@,
            "CAP_SETGID"@,
            "CAP_SETUID"@,
        ],
{
    let mut names: Vec<String> = Vec::new();
    names.push(String::from_str("CAP_CHOWN"));
    names.push(String::from_str("CAP_DAC_OVERRIDE"));
    names.push(String::from_str("CAP_FOWNER"));
    names.push(String::from_str("CAP_SETGID"));
    names.push(String::from_str("CAP_SETUID"));
    let r = CapabilityAllowList { names };
    proof {
        assert(r.ids() =~= seq![
            "CAP_CHOWN"@,
            "CAP_DAC_OVERRIDE"@,
            "CAP_FOWNER"@,
            "CAP_SETGID"@,
            "CAP_SETUID"@,
        ]);
    }
    r
}

fn contains_name(held: &Vec<String>, name: &String) -> (r: bool)
    ensures
        r == name_views(held@).contains(name@),
{
    let mut i: usize = 0;
    let mut found: bool = false;
    while i < held.len()
        invariant
            i <= held@.len(),
            found == exists|k: int| 0 <= k < i && name_views(held@)[k] == name@,
        decreases held@.len() - i,
    {
        if held[i].eq(name) {
            found = true;
            proof {
                assert(name_views(held@)[i as int] == name@);
            }
        }
        i += 1;
    }
    found
}

/// Decides whether every identifier of `allow` is held in `held`.
pub fn check_subset(allow: &CapabilityAllowList, held: &Vec<String>) -> (r: bool)
    ensures
        r == names_subset(allow.ids(), name_views(held@)),
{
    let mut i: usize = 0;
    while i < allow.names.len()
        invariant
            i <= allow.names@.len(),
            forall|k: int| 0 <= k < i ==> name_views(held@).contains(#[trigger] allow.ids()[k]),
        decreases allow.names@.len() - i,
    {
        if !contains_name(held, &allow.names[i]) {
            proof {
                assert(allow.ids()[i as int] == allow.names@[i as int]@);
            }
            return false;
        }
        proof {
            assert(allow.ids()[i as int] == allow.names@[i as int]@);
        }
        i += 1;
    }
    true
}

fn copy_names(v: &Vec<String>) -> (r: Vec<String>)
    ensures
        name_views(r@) == name_views(v@),
{
    let mut out: Vec<String> = Vec::new();
    let mut i: usize = 0;
    while i < v.len()
        invariant
            i <= v@.len(),
            out@.len() == i,
            forall|k: int| 0 <= k < i ==> #[trigger] out@[k]@ == v@[k]@,
        decreases v@.len() - i,
    {
        out.push(v[i].clone());
        i += 1;
    }
    proof {
        assert(name_views(out@) =~= name_views(v@));
    }
    out
}

/// The three capability sets of a process, by canonical capability name:
/// the model of what the governor leaves behind.
pub struct CapSetTriple {
    pub effective: Vec<String>,
    pub permitted: Vec<String>,
    pub inheritable: Vec<String>,
}

/// The governor's decision, taken on the capabilities the process holds.
///
/// If the allow-list is a subset of `held`, the resulting process state has
/// permitted and effective equal to the allow-list and the inheritable set
/// empty — deliberately never populated from the allow-list, so no process
/// spawned inside the container inherits the set ambiently. Otherwise the
/// drop is refused with `InsufficientPrivilege`: it can narrow privilege,
/// never grant it.
pub fn govern(allow: &CapabilityAllowList, held: &Vec<String>) -> (r: Result<
    CapSetTriple,
    CapError,
>)
    ensures
        r is Ok <==> names_subset(allow.ids(), name_views(held@)),
        r matches Ok(t) ==> {
            &&& name_views(t.effective@) == allow.ids()
            &&& name_views(t.permitted@) == allow.ids()
            &&& t.inheritable@.len() == 0
        },
        r matches Err(e) ==> e is InsufficientPrivilege,
{
    if !check_subset(allow, held) {
        return Err(CapError::InsufficientPrivilege);
    }
    let effective = copy_names(&allow.names);
    let permitted = copy_names(&allow.names);
    let inheritable: Vec<String> = Vec::new();
    Ok(CapSetTriple { effective, permitted, inheritable })
}

/// Relies on `caps::read`: lists the capabilities in one set of the calling
/// thread, each by its canonical `CAP_*` name, in no particular order.
#[verifier::external_body]
fn read_cap_names(kind: &CapSetKind) -> (r: Result<Vec<String>, caps::errors::CapsError>)
{
    let cset = match kind {
        CapSetKind::Effective => caps::CapSet::Effective,
        CapSetKind::Permitted => caps::CapSet::Permitted,
        CapSetKind::Inheritable => caps::CapSet::Inheritable,
    };
    match caps::read(None, cset) {
        Ok(held) => Ok(held.iter().map(|c| c.to_string()).collect()),
        Err(e) => Err(e),
    }
}

/// Relies on `caps::clear`: empties one capability set of the calling
/// thread; the kernel may refuse.
#[verifier::external_body]
fn clear_cap_set(kind: &CapSetKind) -> (r: Result<(), caps::errors::CapsError>)
{
    let cset = match kind {
        CapSetKind::Effective => caps::CapSet::Effective,
        CapSetKind::Permitted => caps::CapSet::Permitted,
        CapSetKind::Inheritable => caps::CapSet::Inheritable,
    };
    caps::clear(None, cset)
}

/// Relies on `caps::raise` and `Capability::from_str`: raises the named
/// capability in one set of the calling thread; an unknown name or a
/// kernel refusal comes back as the error.
#[verifier::external_body]
fn raise_cap(kind: &CapSetKind, name: &String) -> (r: Result<(), caps::errors::CapsError>)
{
    let cset = match kind {
        CapSetKind::Effective => caps::CapSet::Effective,
        CapSetKind::Permitted => caps::CapSet::Permitted,
        CapSetKind::Inheritable => caps::CapSet::Inheritable,
    };
    match name.parse::<caps::Capability>() {
        Ok(cap) => caps::raise(None, cset, cap),
        Err(e) => Err(e),
    }
}

/// Applies the minimal capability set to the calling process, strictly
/// before exec: refuse unless the allow-list is a subset of the permitted
/// set the process holds; then clear effective, then permitted, then
/// inheritable — in that order, since effective can only be a subset of
/// permitted — then raise permitted to the allow-list, then effective to
/// the allow-list. The inheritable set stays empty. Any kernel refusal,
/// like any attempt to retain a capability not held, is
/// `InsufficientPrivilege`, fatal to the isolated process.
pub fn drop_to(allow: &CapabilityAllowList) -> (r: Result<(), CapError>)
    ensures
        r matches Err(e) ==> e is InsufficientPrivilege,
{
    let held = match read_cap_names(&CapSetKind::Permitted) {
        Ok(h) => h,
        Err(_) => {
            return Err(CapError::InsufficientPrivilege);
        },
    };
    let target = match govern(allow, &held) {
        Ok(t) => t,
        Err(e) => {
            return Err(e);
        },
    };
    if clear_cap_set(&CapSetKind::Effective).is_err() {
        return Err(CapError::InsufficientPrivilege);
    }
    if clear_cap_set(&CapSetKind::Permitted).is_err() {
        return Err(CapError::InsufficientPrivilege);
    }
    if clear_cap_set(&CapSetKind::Inheritable).is_err() {
        return Err(CapError::InsufficientPrivilege);
    }
    let mut i: usize = 0;
    while i < target.permitted.len()
        decreases target.permitted@.len() - i,
    {
        if raise_cap(&CapSetKind::Permitted, &target.permitted[i]).is_err() {
            return Err(CapError::InsufficientPrivilege);
        }
        i += 1;
    }
    i = 0;
    while i < target.effective.len()
        decreases target.effective@.len() - i,
    {
        if raise_cap(&CapSetKind::Effective, &target.effective[i]).is_err() {
            return Err(CapError::InsufficientPrivilege);
        }
        i += 1;
    }
    Ok(())
}

} // verus!
