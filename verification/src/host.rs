//! A snapshot of the facts about the host that capabilities depend on.
//!
//! Capabilities never read the environment themselves: they are handed a
//! [`HostFacts`] value, so what they contribute is a function of their own
//! state, the command line and this snapshot.

use vstd::prelude::*;
use crate::dirs::{base_dir, DirType};
use crate::text::equal;

verus! {

/// `users::User`, carried through as an opaque value.
#[verifier::external_type_specification]
#[verifier::external_body]
pub struct ExUser(users::User);

/// `users::Group`, carried through as an opaque value.
#[verifier::external_type_specification]
#[verifier::external_body]
pub struct ExGroup(users::Group);

/// One entry of a directory listing.
#[derive(Debug)]
pub struct DirEntry {
    /// The entry's own name.
    pub file_name: String,
    /// The entry's full path.
    pub path: String,
}

/// A group of the host.
#[derive(Debug)]
pub struct HostGroup {
    /// The group's name.
    pub name: String,
    /// The group's number.
    pub gid: u32,
}

/// The variables of the process environment that capabilities read, each
/// `None` where it is unset.
#[derive(Debug)]
pub struct Environment {
    pub home: Option<String>,
    pub xdg_runtime_dir: Option<String>,
    pub display: Option<String>,
    pub lc_all: Option<String>,
    pub lc_ctype: Option<String>,
    pub lang: Option<String>,
}

/// What is known of the host at the time of one invocation.
#[derive(Debug)]
pub struct HostFacts {
    /// The environment variables.
    pub env: Environment,
    /// The entries of `/dev`, `None` where it could not be listed.
    pub dev_entries: Option<Vec<DirEntry>>,
    /// The number of the user who runs the process.
    pub uid: u32,
    /// The number of the group under which the process runs.
    pub gid: u32,
    /// The name of the account numbered `uid`, where there is one.
    pub user_name: Option<String>,
    /// The name of the account numbered `gid`, where there is one.
    pub gid_account_name: Option<String>,
    /// The name of the user who runs the process, where the account exists.
    pub current_username: Option<String>,
    /// The groups that were looked up by name and found.
    pub groups: Vec<HostGroup>,
    /// The user's base directory for data, where the host has one.
    pub data_dir: Option<String>,
}

/// The position of the first group named `name` among `groups`.
pub open spec fn group_index(groups: Seq<HostGroup>, name: Seq<char>, start: int) -> Option<int>
    decreases groups.len() - start,
{
    if start < 0 || start >= groups.len() {
        None
    } else if groups[start].name@ == name {
        Some(start)
    } else {
        group_index(groups, name, start + 1)
    }
}

impl HostFacts {
    /// The first group named `name` among those that were found on the host.
    pub open spec fn group_named(&self, name: Seq<char>) -> Option<HostGroup> {
        match group_index(self.groups@, name, 0) {
            Some(i) => Some(self.groups@[i]),
            None => None,
        }
    }

    /// Finds the group named `name` among those that were found on the host.
    pub fn find_group(&self, name: &str) -> (r: Option<&HostGroup>)
        ensures
            match r {
                Some(g) => self.group_named(name@) == Some(*g),
                None => self.group_named(name@) is None,
            },
    {
        let mut i: usize = 0;
        while i < self.groups.len()
            invariant
                i <= self.groups@.len(),
                group_index(self.groups@, name@, 0) == group_index(self.groups@, name@, i as int),
            decreases self.groups@.len() - i,
        {
            if equal(self.groups[i].name.as_str(), name) {
                proof {
                    lemma_group_index_in_range(self.groups@, name@, i as int);
                }
                return Some(&self.groups[i]);
            }
            i += 1;
        }
        None
    }
}

/// A group index that is found lies within the list.
pub proof fn lemma_group_index_in_range(groups: Seq<HostGroup>, name: Seq<char>, start: int)
    requires
        0 <= start,
    ensures
        match group_index(groups, name, start) {
            Some(i) => start <= i < groups.len() && groups[i].name@ == name,
            None => true,
        },
    decreases groups.len() - start,
{
    if start < groups.len() && groups[start].name@ != name {
        lemma_group_index_in_range(groups, name, start + 1);
    }
}

/// Calls `users::get_current_uid`. The number is that of whoever runs the
/// process, so nothing is claimed of it.
#[verifier::external_body]
fn current_uid() -> u32 {
    users::get_current_uid()
}

/// Calls `users::get_current_gid`. Nothing is claimed of the number.
#[verifier::external_body]
fn current_gid() -> u32 {
    users::get_current_gid()
}

/// Calls `users::get_user_by_uid`. Whether an account is found depends on
/// the host's user database, so nothing is claimed.
#[verifier::external_body]
fn user_by_uid(uid: u32) -> Option<users::User> {
    users::get_user_by_uid(uid)
}

/// Calls `users::User::name` and converts the name to a string.
#[verifier::external_body]
fn user_name(user: &users::User) -> String {
    user.name().to_string_lossy().to_string()
}

/// Calls `users::get_current_username` and converts the name to a string.
/// Nothing is claimed of the outcome.
#[verifier::external_body]
fn current_username() -> Option<String> {
    match users::get_current_username() {
        Some(name) => Some(name.to_string_lossy().to_string()),
        None => None,
    }
}

/// Calls `users::get_group_by_name`. Whether a group is found depends on the
/// host's group database, so nothing is claimed.
#[verifier::external_body]
fn group_by_name(name: &str) -> Option<users::Group> {
    users::get_group_by_name(name)
}

/// Calls `users::Group::name` and converts the name to a string.
#[verifier::external_body]
fn group_name(group: &users::Group) -> String {
    group.name().to_string_lossy().to_string()
}

/// Calls `users::Group::gid`.
#[verifier::external_body]
fn group_gid(group: &users::Group) -> u32 {
    group.gid()
}

/// The name of the account numbered `uid`, where the host has one.
pub(crate) fn account_name(uid: u32) -> Option<String> {
    match user_by_uid(uid) {
        Some(user) => Some(user_name(&user)),
        None => None,
    }
}

/// The number of the user who runs the process.
pub(crate) fn process_uid() -> u32 {
    current_uid()
}

/// Looks a group up by name on the host.
fn lookup_group(name: &str) -> Option<HostGroup> {
    match group_by_name(name) {
        Some(group) => Some(HostGroup { name: group_name(&group), gid: group_gid(&group) }),
        None => None,
    }
}

/// Takes the snapshot: the given environment and listing, the identity of
/// the process, the user's data directory, and each group of `group_names`
/// that the host knows, in the order asked.
///
/// Whatever the host answers, the environment and the listing are carried
/// over unchanged and there are no more groups than were asked for.
pub fn probe(env: Environment, dev_entries: Option<Vec<DirEntry>>, group_names: &Vec<String>) -> (r:
    HostFacts)
    ensures
        r.env == env,
        r.dev_entries == dev_entries,
        r.groups@.len() <= group_names@.len(),
{
    let uid = current_uid();
    let gid = current_gid();
    let mut groups: Vec<HostGroup> = Vec::new();
    let mut i: usize = 0;
    while i < group_names.len()
        invariant
            i <= group_names@.len(),
            groups@.len() <= i,
        decreases group_names@.len() - i,
    {
        if let Some(group) = lookup_group(group_names[i].as_str()) {
            groups.push(group);
        }
        i += 1;
    }
    HostFacts {
        env,
        dev_entries,
        uid,
        gid,
        user_name: account_name(uid),
        gid_account_name: account_name(gid),
        current_username: current_username(),
        groups,
        data_dir: base_dir(DirType::Data),
    }
}

} // verus!
