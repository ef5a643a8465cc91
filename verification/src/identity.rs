//! The identity resolver: numeric user and group ids and their display
//! text. A lookup against the OS identity database yields a name when the
//! id exists and the name is valid text; in every other case the display
//! text falls back to the decimal id, so resolution never fails outward.
//!
//! Each resolution performs its own lookup; nothing is cached, so two
//! entries with the same owner look the id up twice (a deliberate cost,
//! listings being small).

use vstd::prelude::*;
use crate::text::{dec_rep, lemma_dec_rep_nonempty, u64_to_string};

verus! {

/// A numeric user identity.
#[derive(Clone, Copy, Debug, PartialEq, Eq, Structural)]
pub struct Uid {
    pub uid: u32,
}

/// A numeric group identity.
#[derive(Clone, Copy, Debug, PartialEq, Eq, Structural)]
pub struct Gid {
    pub gid: u32,
}

/// Relies on users::get_user_by_uid: asks the process's identity database
/// for the user of this id and hands back its name when the lookup succeeds
/// and the name is valid text. The result depends on the machine's identity
/// database, so nothing is promised of it.
#[verifier::external_body]
fn lookup_user_name(uid: u32) -> Option<String> {
    match users::get_user_by_uid(uid) {
        Some(u) => match u.name().to_str() {
            Some(name) => Some(name.to_string()),
            None => None,
        },
        None => None,
    }
}

/// Relies on users::get_group_by_gid: asks the process's identity database
/// for the group of this id and hands back its name when the lookup
/// succeeds and the name is valid text. The result depends on the machine's
/// identity database, so nothing is promised of it.
#[verifier::external_body]
fn lookup_group_name(gid: u32) -> Option<String> {
    match users::get_group_by_gid(gid) {
        Some(g) => match g.name().to_str() {
            Some(name) => Some(name.to_string()),
            None => None,
        },
        None => None,
    }
}

/// The display text determined by an optional resolved name and the id:
/// the name when one came back, else the decimal form of the id.
pub open spec fn display_spec(name: Option<String>, id: u32) -> Seq<char> {
    match name {
        Some(n) => n@,
        None => dec_rep(id as nat),
    }
}

/// Renders an id in decimal.
pub fn u32_to_string(id: u32) -> (s: String)
    ensures
        s@ == dec_rep(id as nat),
{
    u64_to_string(id as u64)
}

/// Chooses the display text for an id: the resolved name when there is
/// one, else the decimal id — which is never empty, so a failed lookup
/// still yields usable text.
pub fn resolve_display(name: Option<String>, id: u32) -> (s: String)
    ensures
        s@ == display_spec(name, id),
        name is None ==> s@.len() > 0,
{
    match name {
        Some(n) => n,
        None => {
            proof {
                lemma_dec_rep_nonempty(id as nat);
            }
            u32_to_string(id)
        },
    }
}

/// Shared resolution contract for the two identity kinds: the display text
/// is the resolved name when the identity database yields one, else the
/// decimal id. User and group ids share this contract but are distinct
/// types, never interchangeable.
pub trait UidgidDisplay {
    /// The numeric id this identity wraps.
    spec fn id_spec(&self) -> u32;

    /// Asks the identity database for this id's name, if any.
    fn get_name(&self) -> Option<String>;

    /// The raw numeric id.
    fn value(&self) -> (v: u32)
        ensures
            v == self.id_spec(),
    ;

    /// The display text: the resolved name if one came back, else the
    /// decimal id. What the database answers is the machine's to decide;
    /// `resolve_display` carries the exact contract for a given answer.
    fn display_string(&self) -> String {
        let name = self.get_name();
        let id = self.value();
        resolve_display(name, id)
    }
}

impl UidgidDisplay for Uid {
    open spec fn id_spec(&self) -> u32 {
        self.uid
    }

    fn get_name(&self) -> Option<String> {
        lookup_user_name(self.uid)
    }

    fn value(&self) -> (v: u32)
        ensures
            v == self.id_spec(),
    {
        self.uid
    }
}

impl UidgidDisplay for Gid {
    open spec fn id_spec(&self) -> u32 {
        self.gid
    }

    fn get_name(&self) -> Option<String> {
        lookup_group_name(self.gid)
    }

    fn value(&self) -> (v: u32)
        ensures
            v == self.id_spec(),
    {
        self.gid
    }
}

} // verus!
