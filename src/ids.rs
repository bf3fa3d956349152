//! The identity and alias scheme: how a user or a group of the instant
//! messaging network is named on the chat network.
use vstd::prelude::*;
use crate::decimal::{decimal, append_decimal, parse_i64, parsed_i64, lemma_decimal_round_trip, lemma_decimal_injective};

verus! {

/// The prefix of every localpart that the bridge owns: the virtual users and
/// the aliases of bridged rooms.
pub const USER_PREFIX: &'static str = "_qq_";

pub open spec fn prefix_view() -> Seq<char> {
    seq!['_', 'q', 'q', '_']
}

/// The localpart of the virtual user that stands for user `id`.
pub open spec fn virtual_localpart(id: int) -> Seq<char> {
    prefix_view() + decimal(id)
}

/// The localpart of the alias of the room bridged to group `group_id`.
pub open spec fn room_localpart(group_id: int) -> Seq<char> {
    prefix_view() + decimal(group_id)
}

/// The full alias of the room bridged to group `group_id` on `homeserver`.
pub open spec fn room_alias_view(group_id: int, homeserver: Seq<char>) -> Seq<char> {
    seq!['#'] + room_localpart(group_id) + seq![':'] + homeserver
}

pub open spec fn has_prefix(s: Seq<char>, p: Seq<char>) -> bool {
    p.len() <= s.len() && s.subrange(0, p.len() as int) == p
}

/// Whether a localpart belongs to the bridge's namespace of virtual users.
pub open spec fn is_virtual_localpart_spec(s: Seq<char>) -> bool {
    has_prefix(s, prefix_view())
}

/// How a room localpart relates to the bridged groups.
#[derive(PartialEq, Eq, Structural, Debug, Clone, Copy)]
pub enum RoomMatch {
    /// The localpart lies outside the bridge's scheme.
    NotBridged,
    /// It carries the prefix, but what follows is no `i64`.
    BadGroupId,
    /// It names this group.
    Group(i64),
}

pub open spec fn room_match_spec(s: Seq<char>) -> RoomMatch {
    if !has_prefix(s, prefix_view()) {
        RoomMatch::NotBridged
    } else {
        match parsed_i64(s.subrange(prefix_view().len() as int, s.len() as int)) {
            Some(g) => RoomMatch::Group(g),
            None => RoomMatch::BadGroupId,
        }
    }
}

fn prefix() -> (r: &'static str)
    ensures
        r@ == prefix_view(),
{
    proof { reveal_strlit("_qq_"); }
    USER_PREFIX
}

/// Whether `s` begins with `p`.
pub fn starts_with(s: &str, p: &str) -> (r: bool)
    ensures
        r == has_prefix(s@, p@),
{
    let n = p.unicode_len();
    if n > s.unicode_len() {
        return false;
    }
    let mut i: usize = 0;
    while i < n
        invariant
            i <= n,
            n == p@.len(),
            n <= s@.len(),
            forall|k: int| 0 <= k < i ==> s@[k] == p@[k],
        decreases n - i,
    {
        if s.get_char(i) != p.get_char(i) {
            assert(s@.subrange(0, n as int)[i as int] != p@[i as int]);
            return false;
        }
        i = i + 1;
    }
    assert(s@.subrange(0, n as int) =~= p@);
    true
}

/// The localpart of the virtual user for user `id`: the prefix, then the
/// decimal id.
pub fn virtual_user_name(id: i64) -> (r: String)
    ensures
        r@ == virtual_localpart(id as int),
{
    let mut s = String::from_str(prefix());
    append_decimal(&mut s, id);
    s
}

/// The localpart of the alias of the room bridged to `group_id`.
pub fn room_alias_localpart(group_id: i64) -> (r: String)
    ensures
        r@ == room_localpart(group_id as int),
{
    let mut s = String::from_str(prefix());
    append_decimal(&mut s, group_id);
    s
}

/// The alias `#<prefix><group_id>:<homeserver_name>` of the room bridged to
/// `group_id`.
pub fn room_alias(group_id: i64, homeserver_name: &str) -> (r: String)
    ensures
        r@ == room_alias_view(group_id as int, homeserver_name@),
{
    proof { reveal_strlit("#"); reveal_strlit(":"); }
    let mut s = String::from_str("#");
    s.append(prefix());
    append_decimal(&mut s, group_id);
    s.append(":");
    s.append(homeserver_name);
    assert(s@ =~= room_alias_view(group_id as int, homeserver_name@));
    s
}

/// Whether `localpart` lies in the namespace of the virtual users.
pub fn is_virtual_localpart(localpart: &str) -> (r: bool)
    ensures
        r == is_virtual_localpart_spec(localpart@),
{
    starts_with(localpart, prefix())
}

/// The group that a room localpart names: strip the prefix and parse the
/// rest.
pub fn match_room_localpart(localpart: &str) -> (r: RoomMatch)
    ensures
        r == room_match_spec(localpart@),
{
    let p = prefix();
    if !starts_with(localpart, p) {
        return RoomMatch::NotBridged;
    }
    let rest = localpart.substring_char(p.unicode_len(), localpart.unicode_len());
    match parse_i64(rest) {
        Some(g) => RoomMatch::Group(g),
        None => RoomMatch::BadGroupId,
    }
}

/// Distinct users get distinct virtual localparts.
pub proof fn lemma_virtual_localpart_injective(u1: i64, u2: i64)
    requires
        u1 != u2,
    ensures
        virtual_localpart(u1 as int) != virtual_localpart(u2 as int),
{
    lemma_decimal_injective(u1 as int, u2 as int);
    let a = virtual_localpart(u1 as int);
    let b = virtual_localpart(u2 as int);
    if a == b {
        assert(a.subrange(4, a.len() as int) =~= decimal(u1 as int));
        assert(b.subrange(4, b.len() as int) =~= decimal(u2 as int));
    }
}

/// The alias of the room for any group reads back as that group: stripping
/// `#`, the prefix and `:<homeserver>` and parsing what is left gives the
/// group id, and the alias localpart matches the group.
pub proof fn lemma_room_alias_round_trip(group_id: i64, homeserver: Seq<char>)
    ensures
        ({
            let a = room_alias_view(group_id as int, homeserver);
            let lp = room_localpart(group_id as int);
            &&& a.subrange(1, a.len() - homeserver.len() - 1) == lp
            &&& parsed_i64(a.subrange(5, a.len() - homeserver.len() - 1)) == Some(group_id)
            &&& room_match_spec(lp) == RoomMatch::Group(group_id)
        }),
{
    lemma_decimal_round_trip(group_id as int);
    let a = room_alias_view(group_id as int, homeserver);
    let lp = room_localpart(group_id as int);
    assert(a.subrange(1, a.len() - homeserver.len() - 1) =~= lp);
    assert(a.subrange(5, a.len() - homeserver.len() - 1) =~= decimal(group_id as int));
    assert(lp.subrange(0, 4) =~= prefix_view());
    assert(lp.subrange(4, lp.len() as int) =~= decimal(group_id as int));
}

} // verus!
