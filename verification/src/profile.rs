//! Managing the profiles of a configuration.
//!
//! Every function works on a configuration in memory; reading and writing
//! the configuration file is the caller's part.

use vstd::prelude::*;
use vstd::string::StringExecFns;

use crate::config::{spec_find_profile, Config, Profile};
use crate::errors::{MtmfError, Result};
use crate::text::{str_eq, texts};

verus! {

/// The line of a listing for a profile: its name, marked where it is the
/// active one.
pub open spec fn spec_label(name: Seq<char>, active: Seq<char>) -> Seq<char> {
    if name == active {
        name + " (active)"@
    } else {
        name
    }
}

/// The lines of a listing of all profiles.
pub open spec fn spec_labels(profiles: Seq<Profile>, active: Seq<char>) -> Seq<Seq<char>> {
    Seq::new(profiles.len(), |i: int| spec_label(profiles[i].name@, active))
}

/// Lists the profiles by name, in their order, marking the active one.
pub fn list(config: &Config) -> (names: Vec<String>)
    ensures
        texts(names@) == spec_labels(config.profiles@, config.active_profile@),
{
    let mut names: Vec<String> = Vec::new();
    let mut i: usize = 0;
    while i < config.profiles.len()
        invariant
            i <= config.profiles.len(),
            names@.len() == i,
            forall|j: int|
                0 <= j < i ==> (#[trigger] names@[j])@ == spec_label(
                    config.profiles@[j].name@,
                    config.active_profile@,
                ),
        decreases config.profiles.len() - i,
    {
        let mut label = config.profiles[i].name.clone();
        if str_eq(config.profiles[i].name.as_str(), config.active_profile.as_str()) {
            label.append(" (active)");
        }
        names.push(label);
        i = i + 1;
    }
    assert(texts(names@) =~= spec_labels(config.profiles@, config.active_profile@));
    names
}

/// Adds a profile called `name` with the default settings.
///
/// Fails with a `Config` error, changing nothing, when a profile of that
/// name exists.
pub fn create(config: &mut Config, name: &str) -> (r: Result<()>)
    ensures
        final(config).version == old(config).version,
        final(config).active_profile == old(config).active_profile,
        match r {
            Ok(_) => {
                &&& spec_find_profile(old(config).profiles@, name@) is None
                &&& final(config).profiles@.len() == old(config).profiles@.len() + 1
                &&& final(config).profiles@.drop_last() == old(config).profiles@
                &&& final(config).profiles@.last().name@ == name@
            },
            Err(e) => {
                &&& spec_find_profile(old(config).profiles@, name@) is Some
                &&& final(config).profiles == old(config).profiles
                &&& e is Config
            },
        },
{
    if config.find_profile(name).is_some() {
        let mut message = String::from_str("Profile '");
        message.append(name);
        message.append("' already exists");
        return Err(MtmfError::Config(message));
    }
    let mut profile = Profile::default();
    profile.name = String::from_str(name);
    let ghost before = config.profiles@;
    config.profiles.push(profile);
    assert(config.profiles@.drop_last() =~= before);
    Ok(())
}

/// Makes the profile called `name` the active one.
///
/// Fails with a `Config` error, changing nothing, when there is no such
/// profile.
pub fn switch(config: &mut Config, name: &str) -> (r: Result<()>)
    ensures
        final(config).version == old(config).version,
        final(config).profiles == old(config).profiles,
        match r {
            Ok(_) => {
                &&& spec_find_profile(old(config).profiles@, name@) is Some
                &&& final(config).active_profile@ == name@
            },
            Err(e) => {
                &&& spec_find_profile(old(config).profiles@, name@) is None
                &&& final(config).active_profile == old(config).active_profile
                &&& e is Config
            },
        },
{
    if config.find_profile(name).is_none() {
        let mut message = String::from_str("Profile '");
        message.append(name);
        message.append("' not found");
        return Err(MtmfError::Config(message));
    }
    config.active_profile = String::from_str(name);
    Ok(())
}

/// The profiles that are not called `name`, in their order.
pub open spec fn spec_without(profiles: Seq<Profile>, name: Seq<char>) -> Seq<Profile>
    decreases profiles.len(),
{
    if profiles.len() == 0 {
        Seq::empty()
    } else if profiles[0].name@ == name {
        spec_without(profiles.drop_first(), name)
    } else {
        seq![profiles[0]] + spec_without(profiles.drop_first(), name)
    }
}

/// Deletes every profile called `name`.
///
/// Fails with a `Config` error, changing nothing, when that is the active
/// profile, and otherwise when there is no such profile.
pub fn delete(config: &mut Config, name: &str) -> (r: Result<()>)
    ensures
        final(config).version == old(config).version,
        final(config).active_profile == old(config).active_profile,
        r is Ok <==> old(config).active_profile@ != name@ && spec_find_profile(
            old(config).profiles@,
            name@,
        ) is Some,
        r matches Err(e) ==> e is Config && final(config).profiles == old(config).profiles,
        r is Ok ==> final(config).profiles@ == spec_without(old(config).profiles@, name@),
{
    if str_eq(config.active_profile.as_str(), name) {
        return Err(
            MtmfError::Config(
                String::from_str("Cannot delete active profile. Switch to another profile first."),
            ),
        );
    }
    if config.find_profile(name).is_none() {
        let mut message = String::from_str("Profile '");
        message.append(name);
        message.append("' not found");
        return Err(MtmfError::Config(message));
    }
    let ghost before = config.profiles@;
    let mut i: usize = config.profiles.len();
    assert(before.skip(i as int) =~= Seq::<Profile>::empty());
    while i > 0
        invariant
            i <= before.len(),
            config.version == old(config).version,
            config.active_profile == old(config).active_profile,
            before == old(config).profiles@,
            config.profiles@ == before.take(i as int) + spec_without(before.skip(i as int), name@),
        decreases i,
    {
        i = i - 1;
        proof {
            assert(before.skip(i as int).drop_first() =~= before.skip(i + 1));
            assert(before.skip(i as int)[0] == before[i as int]);
            assert(config.profiles@[i as int] == before[i as int]);
        }
        if str_eq(config.profiles[i].name.as_str(), name) {
            let removed = config.profiles.remove(i);
            assert(config.profiles@ =~= before.take(i as int) + spec_without(
                before.skip(i as int),
                name@,
            ));
        } else {
            assert(config.profiles@ =~= before.take(i as int) + spec_without(
                before.skip(i as int),
                name@,
            ));
        }
    }
    assert(before.skip(0) =~= before);
    assert(config.profiles@ =~= spec_without(before, name@));
    Ok(())
}

} // verus!
