//! Identifiers: users, communities ("guilds"), channels, and a user as a
//! member of one community.

use vstd::prelude::*;
use vstd::string::*;
use crate::text::{decimal, lemma_decimal, parse_id, spec_parse_id, write_decimal};

verus! {

/// The identifier of a user.
pub type UserId = u64;

/// The identifier of a community.
pub type GuildId = u64;

/// The identifier of a channel.
pub type ChannelId = u64;

/// A point in time, as a count of time units since some fixed instant. All
/// that matters is that a later point has a greater number.
pub type Timestamp = i64;

/// A user as a member of one community: who is acting, and where.
#[derive(Debug, Clone, Copy, PartialEq, Eq, Hash, Structural)]
pub struct MemberId {
    /// The community.
    pub guild: GuildId,
    /// The user.
    pub user: UserId,
}

impl MemberId {
    /// The number under which maps file a member: the community in the high
    /// 64 bits, the user in the low ones.
    pub open spec fn spec_key(self) -> u128 {
        (self.guild as int * 0x1_0000_0000_0000_0000 + self.user as int) as u128
    }

    /// The member that is filed under a number.
    pub open spec fn of_key(key: u128) -> MemberId {
        MemberId {
            guild: (key as int / 0x1_0000_0000_0000_0000) as u64,
            user: (key as int % 0x1_0000_0000_0000_0000) as u64,
        }
    }

    /// The text that writes the member: the community and the user in base
    /// ten, with a comma between them.
    pub open spec fn spec_to_text(self) -> Seq<char> {
        decimal(self.guild as nat) + seq![','] + decimal(self.user as nat)
    }

    /// The member that a text writes: two identifiers, as
    /// [`spec_parse_id`] reads them, with the first comma of the text
    /// between them.
    pub open spec fn spec_from_text(s: Seq<char>) -> Option<MemberId> {
        if has_comma(s) {
            match (
                spec_parse_id(s.take(first_comma(s))),
                spec_parse_id(s.skip(first_comma(s) + 1)),
            ) {
                (Some(guild), Some(user)) => Some(MemberId { guild, user }),
                _ => None,
            }
        } else {
            None
        }
    }

    /// Writes the member as text: `guild,user`.
    pub fn to_text(&self) -> (r: String)
        ensures
            r@ == self.spec_to_text(),
    {
        let mut out = write_decimal(self.guild);
        out.append(",");
        out.append(write_decimal(self.user).as_str());
        proof {
            reveal_strlit(",");
            assert(","@ =~= seq![',']);
        }
        out
    }

    /// Reads a member from text of the form `guild,user`. `None` if the text
    /// has no comma or one of the two is no identifier.
    pub fn from_text(s: &str) -> (r: Option<Self>)
        ensures
            r == MemberId::spec_from_text(s@),
    {
        let n = s.unicode_len();
        let mut comma: Option<usize> = None;
        let mut at: usize = 0;
        for c in it: s.chars()
            invariant
                it.seq() == s@,
                n == s@.len(),
                at == it.index(),
                match comma {
                    Some(i) => is_first_comma(s@, i as int),
                    None => forall|j: int| 0 <= j < at ==> s@[j] != ',',
                },
        {
            assert(c == s@[at as int]);
            if comma.is_none() && c == ',' {
                comma = Some(at);
            }
            at = at + 1;
        }
        match comma {
            Some(i) => {
                proof {
                    lemma_first_comma(s@, i as int);
                    assert(s@.take(i as int) =~= s@.subrange(0, i as int));
                    assert(s@.skip(i + 1) =~= s@.subrange(i + 1, n as int));
                }
                let guild = parse_id(s.substring_char(0, i));
                let user = parse_id(s.substring_char(i + 1, n));
                match (guild, user) {
                    (Some(guild), Some(user)) => Some(MemberId { guild, user }),
                    _ => None,
                }
            },
            None => None,
        }
    }

    /// Makes a member of a community and a user.
    pub fn new(guild: GuildId, user: UserId) -> (r: Self)
        ensures
            r == (MemberId { guild, user }),
    {
        MemberId { guild, user }
    }

    /// The member that is filed under `key`.
    pub fn from_key(key: u128) -> (r: Self)
        ensures
            r == MemberId::of_key(key),
            r.spec_key() == key,
    {
        MemberId {
            guild: (key / 0x1_0000_0000_0000_0000u128) as u64,
            user: (key % 0x1_0000_0000_0000_0000u128) as u64,
        }
    }

    /// The number under which maps file the member.
    pub fn key(&self) -> (r: u128)
        ensures
            r == self.spec_key(),
    {
        (self.guild as u128) * 0x1_0000_0000_0000_0000u128 + (self.user as u128)
    }
}

/// Whether a text has a comma.
pub open spec fn has_comma(s: Seq<char>) -> bool {
    exists|i: int| 0 <= i < s.len() && s[i] == ','
}

/// Whether the first comma of a text is at `i`.
pub open spec fn is_first_comma(s: Seq<char>, i: int) -> bool {
    &&& 0 <= i < s.len()
    &&& s[i] == ','
    &&& forall|j: int| 0 <= j < i ==> s[j] != ','
}

/// The place of the first comma of a text that has one.
pub open spec fn first_comma(s: Seq<char>) -> int {
    choose|i: int| is_first_comma(s, i)
}

/// A text has its first comma in one place only.
pub proof fn lemma_first_comma(s: Seq<char>, i: int)
    requires
        is_first_comma(s, i),
    ensures
        has_comma(s),
        first_comma(s) == i,
{
    let k = first_comma(s);
    assert(is_first_comma(s, k));
    if k < i {
        assert(s[k] != ',');
    }
    if i < k {
        assert(s[i] != ',');
    }
}

/// The text that writes a member reads back as the member, if neither
/// identifier is zero.
pub proof fn lemma_text_round_trip(member: MemberId)
    requires
        member.guild > 0,
        member.user > 0,
    ensures
        MemberId::spec_from_text(member.spec_to_text()) == Some(member),
{
    let g = decimal(member.guild as nat);
    let u = decimal(member.user as nat);
    let s = member.spec_to_text();
    lemma_decimal(member.guild as nat);
    lemma_decimal(member.user as nat);
    assert(s[g.len() as int] == ',');
    assert forall|j: int| 0 <= j < g.len() implies s[j] != ',' by {
        assert(s[j] == g[j]);
        assert(crate::text::is_digit(g[j]));
    }
    lemma_first_comma(s, g.len() as int);
    assert(s.take(g.len() as int) =~= g);
    assert(s.skip(g.len() as int + 1) =~= u);
}

/// Different members are filed under different numbers, and every number
/// files a member.
pub broadcast proof fn lemma_member_key(a: MemberId)
    ensures
        MemberId::of_key(#[trigger] a.spec_key()) == a,
{
}

/// Every number files the member that it is read back as.
pub broadcast proof fn lemma_key_member(key: u128)
    ensures
        (#[trigger] MemberId::of_key(key)).spec_key() == key,
{
}

/// A map by member, read off a map by the members' numbers.
pub open spec fn by_member<V>(m: Map<u128, V>) -> Map<MemberId, V> {
    Map::new(|id: MemberId| m.contains_key(id.spec_key()), |id: MemberId| m[id.spec_key()])
}

/// Reading a map by member commutes with inserting.
pub proof fn lemma_by_member_insert<V>(m: Map<u128, V>, id: MemberId, v: V)
    ensures
        by_member(m.insert(id.spec_key(), v)) == by_member(m).insert(id, v),
{
    broadcast use lemma_member_key;

    assert(by_member(m.insert(id.spec_key(), v)) =~= by_member(m).insert(id, v));
}

/// A map by member is empty exactly when the map it is read off is.
pub proof fn lemma_by_member_empty<V>(m: Map<u128, V>)
    ensures
        (by_member(m) == Map::<MemberId, V>::empty()) <==> (m == Map::<u128, V>::empty()),
{
    broadcast use lemma_key_member;

    if m == Map::<u128, V>::empty() {
        assert(by_member(m) =~= Map::<MemberId, V>::empty());
    }
    if by_member(m) == Map::<MemberId, V>::empty() {
        assert forall|k: u128| !m.contains_key(k) by {
            let id = MemberId::of_key(k);
            assert(id.spec_key() == k);
            assert(!by_member(m).contains_key(id));
        }
        assert(m =~= Map::<u128, V>::empty());
    }
}

} // verus!
