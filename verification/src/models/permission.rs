//! Party and room permissions, permission overwrites, and how they combine.

use vstd::prelude::*;
use vstd::string::StringSliceAdditionalSpecFns;

use crate::util::digits::{ascii_text, digits_bytes, parse_u128, parse_u128_decimal};

use super::sf::{RoleId, Snowflake, UserId};

verus! {

/// Party/Room Permissions, a set of 128 bit flags.
#[derive(Debug, Clone, Copy, PartialEq, Eq, Structural, Hash)]
pub struct Permissions {
    bits: u128,
}

impl View for Permissions {
    type V = u128;

    closed spec fn view(&self) -> u128 {
        self.bits
    }
}

/// Union of the bits of every named permission.
pub open spec fn perm_all_bits() -> u128 {
    0x8000000000000000f0000fffc0107fffu128
}

/// Bits of the default permission set.
pub open spec fn perm_default_bits() -> u128 {
    0x600005e1c0002000u128
}

/// Bit of the `ADMINISTRATOR` permission.
pub open spec fn perm_admin_bit() -> u128 {
    1u128
}

/// Bit of the `DEFAULT_ONLY` permission.
pub open spec fn perm_default_only_bit() -> u128 {
    0x100000u128
}

/// `bits` with every unnamed bit cleared.
pub open spec fn perm_truncate(bits: u128) -> u128 {
    bits & perm_all_bits()
}

/// The complement of a permission set, restricted to the named permissions.
pub open spec fn perm_complement(bits: u128) -> u128 {
    perm_truncate(!bits)
}

/// `base` with `deny` removed and `allow` added, as `(base & !deny) | allow`.
pub open spec fn perm_apply(base: u128, deny: u128, allow: u128) -> u128 {
    (base & perm_complement(deny)) | allow
}

#[allow(non_snake_case)]
impl Permissions {
    pub fn ADMINISTRATOR() -> (r: Permissions)
        ensures
            r@ == 0x1u128,
    {
        Permissions { bits: 0x1u128 }
    }

    pub fn CREATE_INVITE() -> (r: Permissions)
        ensures
            r@ == 0x2u128,
    {
        Permissions { bits: 0x2u128 }
    }

    pub fn KICK_MEMBERS() -> (r: Permissions)
        ensures
            r@ == 0x4u128,
    {
        Permissions { bits: 0x4u128 }
    }

    pub fn BAN_MEMBERS() -> (r: Permissions)
        ensures
            r@ == 0x8u128,
    {
        Permissions { bits: 0x8u128 }
    }

    pub fn VIEW_AUDIT_LOG() -> (r: Permissions)
        ensures
            r@ == 0x10u128,
    {
        Permissions { bits: 0x10u128 }
    }

    pub fn VIEW_STATISTICS() -> (r: Permissions)
        ensures
            r@ == 0x20u128,
    {
        Permissions { bits: 0x20u128 }
    }

    pub fn MANAGE_PARTY() -> (r: Permissions)
        ensures
            r@ == 0x40u128,
    {
        Permissions { bits: 0x40u128 }
    }

    pub fn MANAGE_ROOMS() -> (r: Permissions)
        ensures
            r@ == 0x80u128,
    {
        Permissions { bits: 0x80u128 }
    }

    pub fn MANAGE_NICKNAMES() -> (r: Permissions)
        ensures
            r@ == 0x100u128,
    {
        Permissions { bits: 0x100u128 }
    }

    pub fn MANAGE_ROLES() -> (r: Permissions)
        ensures
            r@ == 0x200u128,
    {
        Permissions { bits: 0x200u128 }
    }

    pub fn MANAGE_WEBHOOKS() -> (r: Permissions)
        ensures
            r@ == 0x400u128,
    {
        Permissions { bits: 0x400u128 }
    }

    /// Allows members to add or remove custom emoji, stickers or sounds.
    pub fn MANAGE_EXPRESSIONS() -> (r: Permissions)
        ensures
            r@ == 0x800u128,
    {
        Permissions { bits: 0x800u128 }
    }

    pub fn MOVE_MEMBERS() -> (r: Permissions)
        ensures
            r@ == 0x1000u128,
    {
        Permissions { bits: 0x1000u128 }
    }

    pub fn CHANGE_NICKNAME() -> (r: Permissions)
        ensures
            r@ == 0x2000u128,
    {
        Permissions { bits: 0x2000u128 }
    }

    pub fn MANAGE_PERMS() -> (r: Permissions)
        ensures
            r@ == 0x4000u128,
    {
        Permissions { bits: 0x4000u128 }
    }

    pub fn DEFAULT_ONLY() -> (r: Permissions)
        ensures
            r@ == 0x100000u128,
    {
        Permissions { bits: 0x100000u128 }
    }

    pub fn VIEW_ROOM() -> (r: Permissions)
        ensures
            r@ == 0x40000000u128,
    {
        Permissions { bits: 0x40000000u128 }
    }

    pub fn READ_MESSAGE_HISTORY() -> (r: Permissions)
        ensures
            r@ == 0xc0000000u128,
    {
        Permissions { bits: 0xc0000000u128 }
    }

    pub fn SEND_MESSAGES() -> (r: Permissions)
        ensures
            r@ == 0x140000000u128,
    {
        Permissions { bits: 0x140000000u128 }
    }

    pub fn MANAGE_MESSAGES() -> (r: Permissions)
        ensures
            r@ == 0x200000000u128,
    {
        Permissions { bits: 0x200000000u128 }
    }

    pub fn MUTE_MEMBERS() -> (r: Permissions)
        ensures
            r@ == 0x400000000u128,
    {
        Permissions { bits: 0x400000000u128 }
    }

    pub fn DEAFEN_MEMBERS() -> (r: Permissions)
        ensures
            r@ == 0x800000000u128,
    {
        Permissions { bits: 0x800000000u128 }
    }

    pub fn MENTION_EVERYONE() -> (r: Permissions)
        ensures
            r@ == 0x1000000000u128,
    {
        Permissions { bits: 0x1000000000u128 }
    }

    pub fn USE_EXTERNAL_EMOTES() -> (r: Permissions)
        ensures
            r@ == 0x2000000000u128,
    {
        Permissions { bits: 0x2000000000u128 }
    }

    pub fn ADD_REACTIONS() -> (r: Permissions)
        ensures
            r@ == 0x4000000000u128,
    {
        Permissions { bits: 0x4000000000u128 }
    }

    pub fn EMBED_LINKS() -> (r: Permissions)
        ensures
            r@ == 0x8000000000u128,
    {
        Permissions { bits: 0x8000000000u128 }
    }

    pub fn ATTACH_FILES() -> (r: Permissions)
        ensures
            r@ == 0x10000000000u128,
    {
        Permissions { bits: 0x10000000000u128 }
    }

    pub fn USE_SLASH_COMMANDS() -> (r: Permissions)
        ensures
            r@ == 0x20000000000u128,
    {
        Permissions { bits: 0x20000000000u128 }
    }

    pub fn SEND_TTS_MESSAGES() -> (r: Permissions)
        ensures
            r@ == 0x40000000000u128,
    {
        Permissions { bits: 0x40000000000u128 }
    }

    /// Allows a user to add new attachments to existing messages using the "edit" API
    pub fn EDIT_NEW_ATTACHMENT() -> (r: Permissions)
        ensures
            r@ == 0x80000000000u128,
    {
        Permissions { bits: 0x80000000000u128 }
    }

    /// Allows a user to broadcast a stream to this room
    pub fn STREAM() -> (r: Permissions)
        ensures
            r@ == 0x1000000000000000u128,
    {
        Permissions { bits: 0x1000000000000000u128 }
    }

    /// Allows a user to connect and watch/listen to streams in a room
    pub fn CONNECT() -> (r: Permissions)
        ensures
            r@ == 0x2000000000000000u128,
    {
        Permissions { bits: 0x2000000000000000u128 }
    }

    /// Allows a user to speak in a room without broadcasting a stream
    pub fn SPEAK() -> (r: Permissions)
        ensures
            r@ == 0x4000000000000000u128,
    {
        Permissions { bits: 0x4000000000000000u128 }
    }

    /// Allows a user to acquire priority speaker
    pub fn PRIORITY_SPEAKER() -> (r: Permissions)
        ensures
            r@ == 0x8000000000000000u128,
    {
        Permissions { bits: 0x8000000000000000u128 }
    }

    /// Just something to fit in the top half for now during tests
    pub fn TEST() -> (r: Permissions)
        ensures
            r@ == 0x80000000000000000000000000000000u128,
    {
        Permissions { bits: 0x80000000000000000000000000000000u128 }
    }

    /// The permissions every member starts with.
    pub fn DEFAULT() -> (r: Permissions)
        ensures
            r@ == 0x600005e1c0002000u128,
    {
        Permissions { bits: 0x600005e1c0002000u128 }
    }


    /// The raw bits.
    pub fn bits(&self) -> (r: u128)
        ensures
            r == self@,
    {
        self.bits
    }

    /// The empty set.
    pub fn empty() -> (r: Permissions)
        ensures
            r@ == 0,
    {
        Permissions { bits: 0 }
    }

    /// Every named permission.
    pub fn all() -> (r: Permissions)
        ensures
            r@ == perm_all_bits(),
    {
        Permissions { bits: 0x8000000000000000f0000fffc0107fffu128 }
    }

    /// Keeps the named permissions of `bits` and drops the other bits.
    pub fn from_bits_truncate(bits: u128) -> (r: Permissions)
        ensures
            r@ == perm_truncate(bits),
    {
        Permissions { bits: bits & 0x8000000000000000f0000fffc0107fffu128 }
    }

    /// Keeps `bits` exactly as given.
    pub fn from_bits_retain(bits: u128) -> (r: Permissions)
        ensures
            r@ == bits,
    {
        Permissions { bits }
    }

    /// `Some` exactly when every bit of `bits` names a permission.
    pub fn from_bits(bits: u128) -> (r: Option<Permissions>)
        ensures
            r is Some <==> bits & !perm_all_bits() == 0,
            r matches Some(p) ==> p@ == bits,
    {
        if bits & !0x8000000000000000f0000fffc0107fffu128 == 0 {
            Some(Permissions { bits })
        } else {
            None
        }
    }

    pub fn is_empty(&self) -> (r: bool)
        ensures
            r == (self@ == 0),
    {
        self.bits == 0
    }

    /// Whether every permission of `other` is in `self`.
    pub fn contains(&self, other: Permissions) -> (r: bool)
        ensures
            r == (self@ & other@ == other@),
    {
        self.bits & other.bits == other.bits
    }

    pub fn union(self, other: Permissions) -> (r: Permissions)
        ensures
            r@ == self@ | other@,
    {
        Permissions { bits: self.bits | other.bits }
    }

    pub fn intersection(self, other: Permissions) -> (r: Permissions)
        ensures
            r@ == self@ & other@,
    {
        Permissions { bits: self.bits & other.bits }
    }

    /// The permissions of `self` that are not in `other`.
    pub fn difference(self, other: Permissions) -> (r: Permissions)
        ensures
            r@ == self@ & !other@,
    {
        Permissions { bits: self.bits & !other.bits }
    }

    /// The named permissions that are not in `self`.
    pub fn complement(self) -> (r: Permissions)
        ensures
            r@ == perm_complement(self@),
    {
        Permissions::from_bits_truncate(!self.bits)
    }
}

impl Default for Permissions {
    /// The permissions of [`Permissions::DEFAULT`].
    fn default() -> (r: Permissions)
        ensures
            r@ == perm_default_bits(),
    {
        Permissions::DEFAULT()
    }
}

/// Permissions Overwrite for a role or user in a room.
#[derive(Debug, Clone, Copy, PartialEq, Eq, Structural)]
pub struct Overwrite {
    /// Role or User ID
    ///
    /// If it doesn't exist in the role list, then it's a user, simple as that.
    pub id: Snowflake,
    /// Permissions to allow.
    pub allow: Permissions,
    /// Permissions to deny.
    pub deny: Permissions,
}

impl Overwrite {
    /// Takes the Union of two overwrites, assuming the same ID.
    pub fn combine(&self, other: Overwrite) -> (r: Overwrite)
        requires
            self.id == other.id,
        ensures
            r.id == self.id,
            r.allow@ == self.allow@ | other.allow@,
            r.deny@ == self.deny@ | other.deny@,
    {
        Overwrite { id: self.id, allow: self.allow.union(other.allow), deny: self.deny.union(other.deny) }
    }

    /// Applies the overwrite to a base set of permissions.
    ///
    /// Equivalent to `(base & !deny) | allow`.
    pub fn apply(&self, base: Permissions) -> (r: Permissions)
        ensures
            r@ == (base@ & !self.deny@) | self.allow@,
    {
        base.difference(self.deny).union(self.allow)
    }
}

/// What a walk over the overwrites of a room gathers for one user: the denied and allowed
/// bits of the overwrites of the user's roles, then the overwrite of the user, if one comes
/// before the walk ends. The walk stops at the user's own overwrite.
pub open spec fn scan_overwrites(ows: Seq<Overwrite>, roles: Seq<Snowflake>, user: Snowflake) -> (
    u128,
    u128,
    Option<(u128, u128)>,
)
    decreases ows.len(),
{
    if ows.len() == 0 {
        (0u128, 0u128, None)
    } else {
        let o = ows[0];
        if roles.contains(o.id) {
            let rest = scan_overwrites(ows.drop_first(), roles, user);
            (o.deny@ | rest.0, o.allow@ | rest.1, rest.2)
        } else if o.id == user {
            (0u128, 0u128, Some((o.deny@, o.allow@)))
        } else {
            scan_overwrites(ows.drop_first(), roles, user)
        }
    }
}

/// The permissions of a user in a room: administrators get every permission; otherwise
/// `DEFAULT_ONLY` replaces the base by the defaults, the overwrites of the user's roles apply
/// together, and the user's own overwrite applies last.
pub open spec fn spec_compute_overwrites(
    base: u128,
    ows: Seq<Overwrite>,
    roles: Seq<Snowflake>,
    user: Snowflake,
) -> u128 {
    if base & perm_admin_bit() == perm_admin_bit() {
        perm_all_bits()
    } else {
        let b = if base & perm_default_only_bit() == perm_default_only_bit() {
            perm_default_bits()
        } else {
            base
        };
        let scan = scan_overwrites(ows, roles, user);
        let r = perm_apply(b, scan.0, scan.1);
        match scan.2 {
            Some((ud, ua)) => perm_apply(r, ud, ua),
            None => r,
        }
    }
}

/// Splits permission bits into the low and high halves, each reinterpreted as `i64`.
pub open spec fn perm_halves(bits: u128) -> (i64, i64) {
    ((bits as u64) as i64, ((bits >> 64u128) as u64) as i64)
}

/// Joins the low and high halves, as unsigned 64-bit words, into 128 bits.
pub open spec fn perm_join(low: i64, high: i64) -> u128 {
    ((low as u64) as u128) | (((high as u64) as u128) << 64u128)
}

fn contains_id(ids: &[RoleId], id: Snowflake) -> (r: bool)
    ensures
        r == ids@.contains(id),
{
    let mut i: usize = 0;
    while i < ids.len()
        invariant
            i <= ids@.len(),
            forall|j: int| 0 <= j < i ==> ids@[j] != id,
        decreases ids@.len() - i,
    {
        if ids[i].same(&id) {
            return true;
        }
        i += 1;
    }
    false
}

proof fn lemma_or_assoc(a: u128, b: u128, c: u128)
    ensures
        (a | b) | c == a | (b | c),
        a | 0 == a,
        0 | a == a,
{
    assert((a | b) | c == a | (b | c)) by (bit_vector);
    assert(a | 0 == a) by (bit_vector);
    assert(0 | a == a) by (bit_vector);
}

impl Permissions {
    /// Constructs a new `Permissions` from two `i64` values.
    pub fn from_i64(low: i64, high: i64) -> (r: Permissions)
        ensures
            r@ == perm_truncate(perm_join(low, high)),
    {
        Permissions::from_bits_truncate((low as u64) as u128 | (((high as u64) as u128) << 64u32))
    }

    /// Constructs a new `Permissions` from two `Option<i64>` values, defaulting to `0` if `None` on either.
    pub fn from_i64_opt(low: Option<i64>, high: Option<i64>) -> (r: Permissions)
        ensures
            r@ == perm_truncate(
                perm_join(
                    match low {
                        Some(l) => l,
                        None => 0,
                    },
                    match high {
                        Some(h) => h,
                        None => 0,
                    },
                ),
            ),
    {
        Permissions::from_i64(
            match low {
                Some(low) => low,
                None => 0,
            },
            match high {
                Some(high) => high,
                None => 0,
            },
        )
    }

    /// Converts the `Permissions` into two `i64` values.
    pub fn to_i64(self) -> (r: [i64; 2])
        ensures
            r@ == seq![perm_halves(self@).0, perm_halves(self@).1],
    {
        let bits = self.bits;
        let low = (bits as u64) as i64;
        let high = ((bits >> 64u32) as u64) as i64;
        [low, high]
    }

    /// Returns `true` if the permissions contain the `ADMINISTRATOR` permission.
    pub fn is_admin(self) -> (r: bool)
        ensures
            r == (self@ & perm_admin_bit() == perm_admin_bit()),
    {
        self.contains(Permissions::ADMINISTRATOR())
    }

    /// Takes certain flags into account and normalizes the permissions to obey them.
    pub fn normalize(self) -> (r: Permissions)
        ensures
            r@ == (if self@ & perm_default_only_bit() == perm_default_only_bit() {
                perm_default_bits()
            } else if self@ & perm_admin_bit() == perm_admin_bit() {
                perm_all_bits()
            } else {
                self@
            }),
    {
        if self.contains(Permissions::DEFAULT_ONLY()) {
            return Permissions::DEFAULT();
        }
        if self.contains(Permissions::ADMINISTRATOR()) {
            return Permissions::all();
        }
        self
    }

    /// Computes the final permissions for a user in a room given the overwrites and roles.
    pub fn compute_overwrites(self, overwrites: &[Overwrite], user_roles: &[RoleId], user_id: UserId) -> (r:
        Permissions)
        ensures
            r@ == spec_compute_overwrites(self@, overwrites@, user_roles@, user_id),
    {
        let mut perms = self;
        if perms.contains(Permissions::ADMINISTRATOR()) {
            return Permissions::all();
        }
        if perms.contains(Permissions::DEFAULT_ONLY()) {
            perms = Permissions::DEFAULT();
        }
        let mut allow = Permissions::empty();
        let mut deny = Permissions::empty();
        let mut user_overwrite: Option<(Permissions, Permissions)> = None;
        let ghost ows = overwrites@;
        let ghost roles = user_roles@;

        proof {
            assert(ows.skip(0) =~= ows);
            lemma_or_assoc(scan_overwrites(ows, roles, user_id).0, 0, 0);
            lemma_or_assoc(scan_overwrites(ows, roles, user_id).1, 0, 0);
        }
        let mut i: usize = 0;
        loop
            invariant_except_break
                user_overwrite is None,
            invariant
                i <= ows.len(),
                ows == overwrites@,
                roles == user_roles@,
                user_overwrite is None ==> ({
                    let rest = scan_overwrites(ows.skip(i as int), roles, user_id);
                    let all = scan_overwrites(ows, roles, user_id);
                    &&& all.0 == deny@ | rest.0
                    &&& all.1 == allow@ | rest.1
                    &&& all.2 == rest.2
                }),
                user_overwrite matches Some((d, a)) ==> ({
                    let all = scan_overwrites(ows, roles, user_id);
                    &&& all.0 == deny@
                    &&& all.1 == allow@
                    &&& all.2 == Some((d@, a@))
                }),
            ensures
                user_overwrite is None ==> ({
                    let all = scan_overwrites(ows, roles, user_id);
                    &&& all.0 == deny@
                    &&& all.1 == allow@
                    &&& all.2 is None
                }),
                user_overwrite matches Some((d, a)) ==> ({
                    let all = scan_overwrites(ows, roles, user_id);
                    &&& all.0 == deny@
                    &&& all.1 == allow@
                    &&& all.2 == Some((d@, a@))
                }),
            decreases ows.len() - i,
        {
            if i >= overwrites.len() {
                proof {
                    assert(ows.skip(i as int).len() == 0);
                    lemma_or_assoc(deny@, 0, 0);
                    lemma_or_assoc(allow@, 0, 0);
                }
                break;
            }
            let ow = overwrites[i];
            let ghost rest = ows.skip(i as int);
            proof {
                assert(rest[0] == ow);
                assert(rest.drop_first() =~= ows.skip(i + 1));
            }
            if contains_id(user_roles, ow.id) {
                proof {
                    let r2 = scan_overwrites(ows.skip(i + 1), roles, user_id);
                    lemma_or_assoc(deny@, ow.deny@, r2.0);
                    lemma_or_assoc(allow@, ow.allow@, r2.1);
                }
                deny = deny.union(ow.deny);
                allow = allow.union(ow.allow);
            } else if ow.id.same(&user_id) {
                proof {
                    lemma_or_assoc(deny@, 0, 0);
                    lemma_or_assoc(allow@, 0, 0);
                }
                user_overwrite = Some((ow.deny, ow.allow));
                break;
            }
            i += 1;
        }
        perms = perms.intersection(deny.complement());
        perms = perms.union(allow);

        if let Some((user_deny, user_allow)) = user_overwrite {
            perms = perms.intersection(user_deny.complement());
            perms = perms.union(user_allow);
        }
        perms
    }
}

/// Splitting permissions into two `i64` halves and joining them again gives the same
/// permissions back, for permissions made of named bits only.
pub proof fn law_i64_roundtrip(p: Permissions)
    requires
        p@ & !perm_all_bits() == 0,
    ensures
        perm_truncate(perm_join(perm_halves(p@).0, perm_halves(p@).1)) == p@,
{
    let b = p@;
    let low = (b as u64) as i64;
    let high = ((b >> 64u128) as u64) as i64;
    assert((((low as u64) as u128) | (((high as u64) as u128) << 64u128)) == b) by (bit_vector)
        requires
            low == (b as u64) as i64,
            high == ((b >> 64u128) as u64) as i64,
    ;
    assert(b & 0x8000000000000000f0000fffc0107fffu128 == b) by (bit_vector)
        requires
            b & !0x8000000000000000f0000fffc0107fffu128 == 0,
    ;
}

/// An administrator has every permission in every room, whatever the overwrites.
pub proof fn law_admin_has_all(base: u128, ows: Seq<Overwrite>, roles: Seq<Snowflake>, user: Snowflake)
    requires
        base & perm_admin_bit() == perm_admin_bit(),
    ensures
        spec_compute_overwrites(base, ows, roles, user) == perm_all_bits(),
{
}

/// With no overwrites, a user who is not an administrator keeps the named permissions of the
/// base (or of the defaults, under `DEFAULT_ONLY`).
pub proof fn law_no_overwrites(base: u128, roles: Seq<Snowflake>, user: Snowflake)
    requires
        base & perm_admin_bit() != perm_admin_bit(),
    ensures
        spec_compute_overwrites(base, Seq::empty(), roles, user) == (if base & perm_default_only_bit()
            == perm_default_only_bit() {
            perm_default_bits()
        } else {
            base
        }) & perm_all_bits(),
{
    let b = if base & perm_default_only_bit() == perm_default_only_bit() {
        perm_default_bits()
    } else {
        base
    };
    assert((b & ((!0u128) & 0x8000000000000000f0000fffc0107fffu128)) | 0u128 == b
        & 0x8000000000000000f0000fffc0107fffu128) by (bit_vector);
}

/// The named permissions that a user's own overwrite allows are always granted to that user,
/// whatever the overwrites of the user's roles before it deny.
pub proof fn law_user_overwrite_allows(base: u128, ows: Seq<Overwrite>, roles: Seq<Snowflake>, user: Snowflake)
    requires
        scan_overwrites(ows, roles, user).2 is Some,
        scan_overwrites(ows, roles, user).2.unwrap().1 & !perm_all_bits() == 0,
    ensures
        spec_compute_overwrites(base, ows, roles, user) & scan_overwrites(ows, roles, user).2.unwrap().1
            == scan_overwrites(ows, roles, user).2.unwrap().1,
{
    let a = scan_overwrites(ows, roles, user).2.unwrap().1;
    if base & perm_admin_bit() == perm_admin_bit() {
        assert(a & !0x8000000000000000f0000fffc0107fffu128 == 0 ==> 0x8000000000000000f0000fffc0107fffu128
            & a == a) by (bit_vector);
    } else {
        let b = if base & perm_default_only_bit() == perm_default_only_bit() {
            perm_default_bits()
        } else {
            base
        };
        let scan = scan_overwrites(ows, roles, user);
        let r = perm_apply(b, scan.0, scan.1);
        let d = scan.2.unwrap().0;
        let x = r & perm_complement(d);
        assert((x | a) & a == a) by (bit_vector);
    }
}

/// Whether an overwrite can bear on the user: it belongs to one of the user's roles, or to the
/// user.
pub open spec fn overwrite_concerns(roles: Seq<Snowflake>, user: Snowflake) -> spec_fn(Overwrite) -> bool {
    |o: Overwrite| roles.contains(o.id) || o.id == user
}

/// The walk over the overwrites gathers the same with or without the overwrites that
/// concern neither the user nor the user's roles.
proof fn lemma_scan_ignores_others(ows: Seq<Overwrite>, roles: Seq<Snowflake>, user: Snowflake)
    ensures
        scan_overwrites(ows.filter(overwrite_concerns(roles, user)), roles, user) == scan_overwrites(
            ows,
            roles,
            user,
        ),
    decreases ows.len(),
{
    let pred = overwrite_concerns(roles, user);
    if ows.len() > 0 {
        let o = ows[0];
        let rest = ows.drop_first();
        lemma_scan_ignores_others(rest, roles, user);
        assert(ows =~= seq![o] + rest);
        Seq::filter_distributes_over_add(seq![o], rest, pred);
        reveal_with_fuel(Seq::filter, 2);
        let f = ows.filter(pred);
        if pred(o) {
            assert(seq![o].filter(pred) =~= seq![o]);
            assert(f.drop_first() =~= rest.filter(pred));
            assert(f[0] == o);
        } else {
            assert(seq![o].filter(pred) =~= Seq::<Overwrite>::empty());
            assert(f =~= rest.filter(pred));
        }
    } else {
        assert(ows.filter(pred) =~= ows);
    }
}

/// The allowed bits gathered from the overwrites include those of every overwrite of one of
/// the user's roles that comes before any overwrite of the user alone.
proof fn lemma_scan_keeps_role_allow(ows: Seq<Overwrite>, roles: Seq<Snowflake>, user: Snowflake, i: int)
    requires
        0 <= i < ows.len(),
        roles.contains(ows[i].id),
        forall|j: int| 0 <= j < i ==> roles.contains(#[trigger] ows[j].id) || ows[j].id != user,
    ensures
        scan_overwrites(ows, roles, user).1 & ows[i].allow@ == ows[i].allow@,
    decreases i,
{
    let a = ows[i].allow@;
    let o = ows[0];
    if i == 0 {
        let r1 = scan_overwrites(ows.drop_first(), roles, user).1;
        assert((a | r1) & a == a) by (bit_vector);
    } else {
        let rest = ows.drop_first();
        assert(rest[i - 1] == ows[i]);
        assert forall|j: int| 0 <= j < i - 1 implies roles.contains(#[trigger] rest[j].id) || rest[j].id != user by {
            assert(rest[j] == ows[j + 1]);
        }
        lemma_scan_keeps_role_allow(rest, roles, user, i - 1);
        assert(roles.contains(ows[0].id) || ows[0].id != user);
        if roles.contains(o.id) {
            let r1 = scan_overwrites(rest, roles, user).1;
            let oa = o.allow@;
            assert(r1 & a == a ==> (oa | r1) & a == a) by (bit_vector);
        }
    }
}

/// The overwrite of the user that the walk finds is one of the overwrites of the user alone.
proof fn lemma_scan_user_overwrite(ows: Seq<Overwrite>, roles: Seq<Snowflake>, user: Snowflake)
    ensures
        scan_overwrites(ows, roles, user).2 matches Some((d, a)) ==> exists|j: int|
            0 <= j < ows.len() && !roles.contains(#[trigger] ows[j].id) && ows[j].id == user && ows[j].deny@ == d
                && ows[j].allow@ == a,
    decreases ows.len(),
{
    if ows.len() > 0 {
        let rest = ows.drop_first();
        lemma_scan_user_overwrite(rest, roles, user);
        let o = ows[0];
        if roles.contains(o.id) || o.id != user {
            if scan_overwrites(ows, roles, user).2 is Some {
                let j = choose|j: int|
                    0 <= j < rest.len() && !roles.contains(#[trigger] rest[j].id) && rest[j].id == user
                        && rest[j].deny@ == scan_overwrites(rest, roles, user).2->Some_0.0 && rest[j].allow@
                        == scan_overwrites(rest, roles, user).2->Some_0.1;
                assert(ows[j + 1] == rest[j]);
            }
        } else {
            assert(!roles.contains(ows[0].id) && ows[0].id == user);
        }
    }
}

/// Whatever an overwrite of one of the user's roles allows is granted to the user, when it
/// comes before any overwrite of the user alone, whatever the other roles deny and in
/// whatever order their overwrites come, unless an overwrite of the user alone denies it.
pub proof fn law_role_allow_granted(base: u128, ows: Seq<Overwrite>, roles: Seq<Snowflake>, user: Snowflake, i: int)
    requires
        0 <= i < ows.len(),
        roles.contains(ows[i].id),
        forall|j: int| 0 <= j < i ==> roles.contains(#[trigger] ows[j].id) || ows[j].id != user,
        forall|j: int|
            0 <= j < ows.len() && !roles.contains(#[trigger] ows[j].id) && ows[j].id == user ==> ows[j].deny@
                & ows[i].allow@ == 0,
    ensures
        spec_compute_overwrites(base, ows, roles, user) & (ows[i].allow@ & perm_all_bits()) == ows[i].allow@
            & perm_all_bits(),
{
    let a = ows[i].allow@;
    let all = perm_all_bits();
    if base & perm_admin_bit() == perm_admin_bit() {
        assert(all & (a & all) == a & all) by (bit_vector);
    } else {
        let b = if base & perm_default_only_bit() == perm_default_only_bit() {
            perm_default_bits()
        } else {
            base
        };
        let scan = scan_overwrites(ows, roles, user);
        lemma_scan_keeps_role_allow(ows, roles, user, i);
        let r = perm_apply(b, scan.0, scan.1);
        let d = scan.0;
        let al = scan.1;
        assert(al & a == a ==> ((b & ((!d) & 0x8000000000000000f0000fffc0107fffu128)) | al) & a == a) by (bit_vector);
        assert(r & a == a ==> r & (a & all) == a & all) by (bit_vector);
        lemma_scan_user_overwrite(ows, roles, user);
        match scan.2 {
            Some((ud, ua)) => {
                let j = choose|j: int|
                    0 <= j < ows.len() && !roles.contains(#[trigger] ows[j].id) && ows[j].id == user && ows[j].deny@
                        == ud && ows[j].allow@ == ua;
                assert(ud & a == 0);
                assert(r & a == a && ud & a == 0 ==> ((r & ((!ud) & 0x8000000000000000f0000fffc0107fffu128)) | ua) & (a
                    & 0x8000000000000000f0000fffc0107fffu128) == a & 0x8000000000000000f0000fffc0107fffu128)
                    by (bit_vector);
            },
            None => {},
        }
    }
}

/// The walk gathers the same from the overwrites when two neighbouring overwrites of the
/// user's roles trade places.
proof fn lemma_scan_role_swap(ows: Seq<Overwrite>, roles: Seq<Snowflake>, user: Snowflake, i: int)
    requires
        0 <= i,
        i + 1 < ows.len(),
        roles.contains(ows[i].id),
        roles.contains(ows[i + 1].id),
    ensures
        scan_overwrites(ows.update(i, ows[i + 1]).update(i + 1, ows[i]), roles, user) == scan_overwrites(
            ows,
            roles,
            user,
        ),
    decreases i,
{
    let sw = ows.update(i, ows[i + 1]).update(i + 1, ows[i]);
    if i == 0 {
        let rest = ows.drop_first().drop_first();
        assert(sw.drop_first().drop_first() =~= rest);
        assert(sw[0] == ows[1] && sw[1] == ows[0]);
        assert(sw.drop_first()[0] == ows[0]);
        assert(ows.drop_first()[0] == ows[1]);
        let r = scan_overwrites(rest, roles, user);
        assert(ows.drop_first().drop_first() =~= rest);
        assert(scan_overwrites(ows.drop_first(), roles, user) == (ows[1].deny@ | r.0, ows[1].allow@ | r.1, r.2));
        assert(scan_overwrites(sw.drop_first(), roles, user) == (ows[0].deny@ | r.0, ows[0].allow@ | r.1, r.2));
        let (d0, a0, d1, a1) = (ows[0].deny@, ows[0].allow@, ows[1].deny@, ows[1].allow@);
        let (r0, r1) = (r.0, r.1);
        assert(d1 | (d0 | r0) == d0 | (d1 | r0)) by (bit_vector);
        assert(a1 | (a0 | r1) == a0 | (a1 | r1)) by (bit_vector);
    } else {
        let rest = ows.drop_first();
        lemma_scan_role_swap(rest, roles, user, i - 1);
        assert(sw.drop_first() =~= rest.update(i - 1, rest[i]).update(i, rest[i - 1]));
        assert(sw[0] == ows[0]);
    }
}

/// The order of two neighbouring overwrites of the user's roles does not matter: the
/// overwrites of the user's roles apply together.
pub proof fn law_role_order_irrelevant(base: u128, ows: Seq<Overwrite>, roles: Seq<Snowflake>, user: Snowflake, i: int)
    requires
        0 <= i,
        i + 1 < ows.len(),
        roles.contains(ows[i].id),
        roles.contains(ows[i + 1].id),
    ensures
        spec_compute_overwrites(base, ows.update(i, ows[i + 1]).update(i + 1, ows[i]), roles, user)
            == spec_compute_overwrites(base, ows, roles, user),
{
    lemma_scan_role_swap(ows, roles, user, i);
}

/// Dropping the overwrites that concern neither the user nor the user's roles, keeping the
/// order of the rest, does not change the user's permissions.
pub proof fn law_other_overwrites_ignored(base: u128, ows: Seq<Overwrite>, roles: Seq<Snowflake>, user: Snowflake)
    ensures
        spec_compute_overwrites(base, ows.filter(overwrite_concerns(roles, user)), roles, user)
            == spec_compute_overwrites(base, ows, roles, user),
{
    lemma_scan_ignores_others(ows, roles, user);
}

/// Calls `itoa::Buffer::format` on a fresh buffer and copies the text: the decimal digits of
/// the number, without sign or leading zeros.
#[verifier::external_body]
fn itoa_u128(n: u128) -> (r: String)
    ensures
        r@ == ascii_text(digits_bytes(n as nat, 10)),
{
    itoa::Buffer::new().format(n).to_string()
}

impl Permissions {
    /// The bits as decimal text, as human-readable formats hold them.
    pub fn to_decimal(&self) -> (r: String)
        ensures
            r@ == ascii_text(digits_bytes(self@ as nat, 10)),
    {
        itoa_u128(self.bits())
    }

    /// Reads decimal text of 128 bits, keeping the named permissions; `None` when the text is
    /// not a number that fits in 128 bits.
    pub fn from_decimal(s: &str) -> (r: Option<Permissions>)
        ensures
            match parse_u128_decimal(s.spec_bytes()) {
                Some(v) => r matches Some(p) && p@ == perm_truncate(v),
                None => r is None,
            },
    {
        match parse_u128(s.as_bytes()) {
            Some(bits) => Some(Permissions::from_bits_truncate(bits)),
            None => None,
        }
    }
}

/// The decimal text of permissions made of named bits reads back as the same permissions.
pub proof fn law_decimal_roundtrip(p: Permissions)
    requires
        p@ & !perm_all_bits() == 0,
    ensures
        parse_u128_decimal(digits_bytes(p@ as nat, 10)) == Some(p@),
        perm_truncate(p@) == p@,
{
    crate::util::digits::lemma_digits_roundtrip(p@ as nat);
    let b = p@;
    assert(b & 0x8000000000000000f0000fffc0107fffu128 == b) by (bit_vector)
        requires
            b & !0x8000000000000000f0000fffc0107fffu128 == 0,
    ;
}

} // verus!
