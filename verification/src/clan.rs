//! Competing units ("clans") and the tag canonicalization helpers used
//! when identities arrive from outside.

use vstd::prelude::*;

verus! {

/// Status of a member unit: eligible for local resolution.
pub const STATUS_MEMBER: i16 = 1;

/// Status of a unit recorded from an oracle reply the oracle itself
/// could not decide.
pub const STATUS_UNDECIDED: i16 = 3;

/// Status of a cooperating-alliance unit recorded from a decided oracle
/// reply.
pub const STATUS_ALLIANCE: i16 = 9;

/// A competing organizational unit. Member units (`status` of
/// [`STATUS_MEMBER`]) are resolved locally; other statuses mark units
/// seen only through opponent matches.
#[derive(Debug, Clone, PartialEq)]
#[verifier::ext_equal]
pub struct Clan {
    pub id: u64,
    pub tag: Vec<u8>,
    pub name: Option<Vec<u8>>,
    pub status: i16,
    pub series_id: Option<u64>,
    pub is_global: bool,
    pub create_time: i64,
    pub update_time: i64,
}

/// `s` with every `#` removed.
pub open spec fn strip_hash(s: Seq<u8>) -> Seq<u8>
    decreases s.len(),
{
    if s.len() == 0 {
        Seq::empty()
    } else if s.last() == 35u8 {
        strip_hash(s.drop_last())
    } else {
        strip_hash(s.drop_last()).push(s.last())
    }
}

/// The canonical form of a unit tag: a single leading `#` followed by
/// the tag with every `#` removed.
pub open spec fn canon_tag_spec(s: Seq<u8>) -> Seq<u8> {
    seq![35u8] + strip_hash(s)
}

/// ASCII lower-case letters mapped to upper case; all other bytes kept.
pub open spec fn upper_byte(b: u8) -> u8 {
    if 97 <= b <= 122 {
        (b - 32) as u8
    } else {
        b
    }
}

pub open spec fn upper_bytes(s: Seq<u8>) -> Seq<u8> {
    s.map_values(|b: u8| upper_byte(b))
}

/// The canonical upper-case form of a unit tag: a single leading `#`,
/// every other `#` removed, ASCII letters upper-cased.
pub open spec fn normalize_tag_spec(s: Seq<u8>) -> Seq<u8> {
    seq![35u8] + upper_bytes(strip_hash(s))
}

/// Rewrites `tag` into its canonical form: one leading `#`, all other
/// `#` bytes dropped.
pub fn canon_tag(tag: &Vec<u8>) -> (r: Vec<u8>)
    ensures
        r@ == canon_tag_spec(tag@),
{
    let mut r: Vec<u8> = Vec::new();
    r.push(35);
    let n = tag.len();
    let mut i: usize = 0;
    proof {
        assert(tag@.take(0) =~= Seq::<u8>::empty());
    }
    while i < n
        invariant
            0 <= i <= n == tag@.len(),
            r@ == seq![35u8] + strip_hash(tag@.take(i as int)),
        decreases n - i,
    {
        let b = tag[i];
        proof {
            assert(tag@.take(i + 1).drop_last() =~= tag@.take(i as int));
            assert(tag@.take(i + 1).last() == tag@[i as int]);
        }
        if b != 35 {
            r.push(b);
        }
        i = i + 1;
    }
    proof {
        assert(tag@.take(n as int) =~= tag@);
    }
    r
}

/// Rewrites `tag` into its canonical upper-case form, as used for cache
/// keys and outward queries: one leading `#`, other `#` bytes dropped,
/// ASCII letters upper-cased.
pub fn normalize_tag(tag: &Vec<u8>) -> (r: Vec<u8>)
    ensures
        r@ == normalize_tag_spec(tag@),
{
    let stripped = canon_tag(tag);
    let n = stripped.len();
    let mut r: Vec<u8> = Vec::new();
    let mut i: usize = 0;
    while i < n
        invariant
            0 <= i <= n == stripped@.len(),
            r@.len() == i,
            forall|j: int| 0 <= j < i ==> r@[j] == upper_byte(stripped@[j]),
        decreases n - i,
    {
        let b = stripped[i];
        if 97 <= b && b <= 122 {
            r.push(b - 32);
        } else {
            r.push(b);
        }
        i = i + 1;
    }
    proof {
        assert(stripped@[0] == 35u8);
        assert(upper_byte(35u8) == 35u8);
        assert(r@ =~= seq![35u8] + upper_bytes(strip_hash(tag@)));
    }
    r
}

/// Whether two byte texts hold the same content.
pub fn bytes_eq(a: &Vec<u8>, b: &Vec<u8>) -> (r: bool)
    ensures
        r == (a@ == b@),
{
    if a.len() != b.len() {
        proof {
            assert(a@.len() != b@.len());
        }
        return false;
    }
    let n = a.len();
    let mut i: usize = 0;
    while i < n
        invariant
            0 <= i <= n == a@.len() == b@.len(),
            forall|j: int| 0 <= j < i ==> a@[j] == b@[j],
        decreases n - i,
    {
        if a[i] != b[i] {
            return false;
        }
        i = i + 1;
    }
    proof {
        assert(a@ =~= b@);
    }
    true
}

/// Copies a byte text.
pub fn bytes_clone(a: &Vec<u8>) -> (r: Vec<u8>)
    ensures
        r@ == a@,
{
    let n = a.len();
    let mut r: Vec<u8> = Vec::new();
    let mut i: usize = 0;
    while i < n
        invariant
            0 <= i <= n == a@.len(),
            r@ == a@.take(i as int),
        decreases n - i,
    {
        r.push(a[i]);
        proof {
            assert(a@.take(i + 1) =~= a@.take(i as int).push(a@[i as int]));
        }
        i = i + 1;
    }
    proof {
        assert(a@.take(n as int) =~= a@);
    }
    r
}

/// Copies an optional byte text.
pub fn opt_bytes_clone(a: &Option<Vec<u8>>) -> (r: Option<Vec<u8>>)
    ensures
        match a {
            Some(v) => r matches Some(w) && w@ == v@,
            None => r is None,
        },
{
    match a {
        Some(v) => Some(bytes_clone(v)),
        None => None,
    }
}

} // verus!
