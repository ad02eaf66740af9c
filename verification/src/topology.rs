//! Topology snapshots and active-profile resolution.
//!
//! A topology is the daemon's set of named routing groups, each holding the
//! name of its currently selected member. The group named `GLOBAL` selects
//! another group; that group's own selection is the active profile name.

use vstd::prelude::*;

verus! {

/// One named routing group and the name of its currently selected member.
#[derive(Clone, Debug)]
pub struct Group {
    pub name: String,
    pub now: Option<String>,
}

/// An immutable snapshot of the daemon's named routing groups.
#[derive(Clone, Debug)]
pub struct Topology {
    pub groups: Vec<Group>,
}

/// An expected group or selection is absent from a topology snapshot.
#[derive(Clone, Copy, PartialEq, Eq, Structural, Debug)]
pub enum TopologyError {
    /// No group named `GLOBAL` exists.
    MissingGlobal,
    /// The `GLOBAL` group has no selected member.
    UnsetGlobal,
    /// The group that `GLOBAL` selects does not exist.
    MissingGroup,
    /// The selected group has no selected member.
    UnsetGroup,
}

/// The first group with the given name, if any.
pub open spec fn lookup(groups: Seq<Group>, name: Seq<char>) -> Option<Group>
    decreases groups.len(),
{
    if groups.len() == 0 {
        None
    } else if groups[0].name@ == name {
        Some(groups[0])
    } else {
        lookup(groups.drop_first(), name)
    }
}

/// The index of the first group with the given name, if any.
fn find_group(groups: &Vec<Group>, name: &String) -> (r: Option<usize>)
    ensures
        match r {
            Some(i) => i < groups@.len() && lookup(groups@, name@) == Some(groups@[i as int]),
            None => lookup(groups@, name@) is None,
        },
{
    let mut i: usize = 0;
    proof {
        assert(groups@.skip(0) =~= groups@);
    }
    while i < groups.len()
        invariant
            i <= groups@.len(),
            lookup(groups@, name@) == lookup(groups@.skip(i as int), name@),
        decreases groups@.len() - i,
    {
        if groups[i].name == *name {
            proof {
                assert(groups@.skip(i as int)[0] == groups@[i as int]);
            }
            return Some(i);
        }
        proof {
            assert(groups@.skip(i as int)[0] == groups@[i as int]);
            assert(groups@.skip(i as int).drop_first() =~= groups@.skip(i + 1));
        }
        i += 1;
    }
    None
}

/// The profile name a topology resolves to, or the exact error: the `GLOBAL`
/// group's selection names the current group, whose own selection is the
/// active profile. A missing `GLOBAL` group never falls back to any other.
pub open spec fn resolve_spec(t: Topology) -> Result<Seq<char>, TopologyError> {
    match lookup(t.groups@, "GLOBAL"@) {
        None => Err(TopologyError::MissingGlobal),
        Some(g) => match g.now {
            None => Err(TopologyError::UnsetGlobal),
            Some(group_name) => match lookup(t.groups@, group_name@) {
                None => Err(TopologyError::MissingGroup),
                Some(p) => match p.now {
                    None => Err(TopologyError::UnsetGroup),
                    Some(profile) => Ok(profile@),
                },
            },
        },
    }
}

/// Resolve the active profile name from a topology snapshot.
pub fn resolve_profile(t: &Topology) -> (r: Result<String, TopologyError>)
    ensures
        match r {
            Ok(s) => resolve_spec(*t) == Ok::<Seq<char>, TopologyError>(s@),
            Err(e) => resolve_spec(*t) == Err::<Seq<char>, TopologyError>(e),
        },
{
    let global_name = String::from_str("GLOBAL");
    let gi = match find_group(&t.groups, &global_name) {
        Some(i) => i,
        None => {
            return Err(TopologyError::MissingGlobal);
        },
    };
    let group_name = match &t.groups[gi].now {
        Some(n) => n.clone(),
        None => {
            return Err(TopologyError::UnsetGlobal);
        },
    };
    let pi = match find_group(&t.groups, &group_name) {
        Some(i) => i,
        None => {
            return Err(TopologyError::MissingGroup);
        },
    };
    match &t.groups[pi].now {
        Some(profile) => Ok(profile.clone()),
        None => Err(TopologyError::UnsetGroup),
    }
}

} // verus!
