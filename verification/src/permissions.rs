//! The demonlist's permissions and how they imply each other.
use vstd::prelude::*;

verus! {

/// A permission: its name and the bit that stands for it in a user's permission bits.
#[derive(Debug, Clone, Copy, PartialEq, Eq, Hash)]
pub struct Permission {
    pub name: &'static str,
    pub bit: u16,
}

pub const LIST_HELPER_BIT: u16 = 0x2;

pub const LIST_MODERATOR_BIT: u16 = 0x4;

pub const LIST_ADMINISTRATOR_BIT: u16 = 0x8;

pub fn list_helper() -> (r: Permission)
    ensures
        r.bit == LIST_HELPER_BIT,
        r.name@ == "List Helper"@,
{
    Permission { name: "List Helper", bit: LIST_HELPER_BIT }
}

pub fn list_moderator() -> (r: Permission)
    ensures
        r.bit == LIST_MODERATOR_BIT,
        r.name@ == "List Moderator"@,
{
    Permission { name: "List Moderator", bit: LIST_MODERATOR_BIT }
}

pub fn list_administrator() -> (r: Permission)
    ensures
        r.bit == LIST_ADMINISTRATOR_BIT,
        r.name@ == "List Administrator"@,
{
    Permission { name: "List Administrator", bit: LIST_ADMINISTRATOR_BIT }
}

/// Whether the bits hold the bit `bit`.
pub open spec fn holds(bits: u16, bit: u16) -> bool {
    bits & bit == bit
}

/// The list permissions imply each other downwards: a list administrator is a list
/// moderator, and a list moderator is a list helper. So `bits` grant `required` when they
/// hold it or a list permission that implies it.
pub open spec fn grants(bits: u16, required: u16) -> bool {
    ||| holds(bits, required)
    ||| (required == LIST_MODERATOR_BIT && holds(bits, LIST_ADMINISTRATOR_BIT))
    ||| (required == LIST_HELPER_BIT && (holds(bits, LIST_MODERATOR_BIT) || holds(bits, LIST_ADMINISTRATOR_BIT)))
}

/// Whether a user with permission bits `bits` has the permission `required`.
pub fn has_permission(bits: u16, required: Permission) -> (r: bool)
    ensures
        r == grants(bits, required.bit),
{
    let helper: u16 = LIST_HELPER_BIT;
    let moderator: u16 = LIST_MODERATOR_BIT;
    let administrator: u16 = LIST_ADMINISTRATOR_BIT;
    (bits & required.bit == required.bit) || (required.bit == moderator && bits & administrator == administrator)
        || (required.bit == helper && (bits & moderator == moderator || bits & administrator == administrator))
}

/// Law: the list permissions are ordered: whoever is a list administrator is a list
/// moderator, and whoever is a list moderator is a list helper.
pub proof fn law_list_permissions_nest(bits: u16)
    ensures
        grants(bits, LIST_ADMINISTRATOR_BIT) ==> grants(bits, LIST_MODERATOR_BIT),
        grants(bits, LIST_MODERATOR_BIT) ==> grants(bits, LIST_HELPER_BIT),
{
}

} // verus!
