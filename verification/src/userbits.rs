//! Fixed-capacity membership sets over the 256-value identity space.
//!
//! A `UserBits` value holds one bit per participant identity: bit `u % 8` of
//! byte `u / 8` records whether identity `u` is a member. All operations are
//! constant-time and defined for the full identity range.

use vstd::prelude::*;

verus! {

broadcast use vstd::seq_lib::lemma_seq_contains_after_push;

/// A set of participant identities, one bit per identity.
pub type UserBits = [u8; 32];

/// Membership of identity `user`: bit `user % 8` of byte `user / 8` is set.
pub open spec fn spec_userbit(bits: UserBits, user: u8) -> bool {
    bits[user as int / 8] & (1u8 << (user % 8)) != 0
}

/// The mathematical set of identities the bit array holds.
pub open spec fn bit_members(bits: UserBits) -> Set<u8> {
    Set::new(|u: u8| spec_userbit(bits, u))
}

proof fn lemma_or_bit(b: u8, i: u8, j: u8)
    requires
        i < 8,
        j < 8,
    ensures
        ((b | (1u8 << i)) & (1u8 << j) != 0) == (i == j || (b & (1u8 << j)) != 0),
{
    assert(((b | (1u8 << i)) & (1u8 << j) != 0) == (i == j || (b & (1u8 << j)) != 0))
        by (bit_vector)
        requires
            i < 8,
            j < 8,
    ;
}

proof fn lemma_clear_bit(b: u8, i: u8, j: u8)
    requires
        i < 8,
        j < 8,
    ensures
        ((b & !(1u8 << i)) & (1u8 << j) != 0) == (i != j && (b & (1u8 << j)) != 0),
{
    assert(((b & !(1u8 << i)) & (1u8 << j) != 0) == (i != j && (b & (1u8 << j)) != 0))
        by (bit_vector)
        requires
            i < 8,
            j < 8,
    ;
}

proof fn lemma_id_split(u: u8, v: u8)
    ensures
        (u / 8 == v / 8 && u % 8 == v % 8) == (u == v),
{
    assert((u / 8 == v / 8 && u % 8 == v % 8) == (u == v)) by (bit_vector);
}

/// Add `user` to the set, leaving every other identity's membership unchanged.
pub fn set_userbit(bits: &mut UserBits, user: u8)
    ensures
        forall|v: u8|
            spec_userbit(*final(bits), v) == (v == user || spec_userbit(*old(bits), v)),
{
    let idx: usize = (user / 8) as usize;
    assert(user / 8 < 32) by (bit_vector);
    bits[idx] = bits[idx] | (1u8 << (user % 8));
    proof {
        assert forall|v: u8|
            spec_userbit(*bits, v) == (v == user || spec_userbit(*old(bits), v)) by {
            lemma_id_split(user, v);
            if v as int / 8 == user as int / 8 {
                lemma_or_bit(old(bits)[user as int / 8], user % 8, v % 8);
            }
        }
    }
}

/// Remove `user` from the set, leaving every other identity's membership
/// unchanged.
pub fn unset_userbit(bits: &mut UserBits, user: u8)
    ensures
        forall|v: u8|
            spec_userbit(*final(bits), v) == (v != user && spec_userbit(*old(bits), v)),
{
    let idx: usize = (user / 8) as usize;
    assert(user / 8 < 32) by (bit_vector);
    bits[idx] = bits[idx] & !(1u8 << (user % 8));
    proof {
        assert forall|v: u8|
            spec_userbit(*bits, v) == (v != user && spec_userbit(*old(bits), v)) by {
            lemma_id_split(user, v);
            if v as int / 8 == user as int / 8 {
                lemma_clear_bit(old(bits)[user as int / 8], user % 8, v % 8);
            }
        }
    }
}

/// Test whether `user` is a member.
pub fn is_userbit(bits: &UserBits, user: u8) -> (r: bool)
    ensures
        r == spec_userbit(*bits, user),
{
    let idx: usize = (user / 8) as usize;
    assert(user / 8 < 32) by (bit_vector);
    (bits[idx] & (1u8 << (user % 8))) != 0
}

/// The empty membership set.
pub fn empty_userbits() -> (r: UserBits)
    ensures
        forall|v: u8| !spec_userbit(r, v),
{
    let bits: UserBits = [0u8; 32];
    proof {
        assert forall|v: u8| !spec_userbit(bits, v) by {
            assert(0u8 & (1u8 << (v % 8)) == 0) by (bit_vector);
        }
    }
    bits
}

/// The membership set holding every identity.
pub fn full_userbits() -> (r: UserBits)
    ensures
        forall|v: u8| spec_userbit(r, v),
{
    let bits: UserBits = [0xffu8; 32];
    proof {
        assert forall|v: u8| spec_userbit(bits, v) by {
            assert(0xffu8 & (1u8 << (v % 8)) != 0) by (bit_vector);
        }
    }
    bits
}

/// Replace-all constructor: the set holding exactly the listed identities.
pub fn vec_to_userbits(users: &Vec<u8>) -> (r: UserBits)
    ensures
        forall|v: u8| spec_userbit(r, v) == users@.contains(v),
{
    let mut bits: UserBits = empty_userbits();
    let n: usize = users.len();
    let mut i: usize = 0;
    while i < n
        invariant
            n == users@.len(),
            i <= n,
            forall|v: u8| spec_userbit(bits, v) == users@.take(i as int).contains(v),
        decreases n - i,
    {
        set_userbit(&mut bits, users[i]);
        proof {
            assert(users@.take(i as int + 1) =~= users@.take(i as int).push(users@[i as int]));
        }
        i += 1;
    }
    proof {
        assert(users@.take(n as int) =~= users@);
    }
    bits
}

} // verus!
