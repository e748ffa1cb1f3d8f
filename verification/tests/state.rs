//! Tests of the state components: membership bitsets, tiers, and the
//! user-permission state.

use aclfilter::filter::AclFilter;
use aclfilter::filter::UserACLs;
use aclfilter::filter::layer_creator;
use aclfilter::messages::ClientMetaMessage;
use aclfilter::messages::JOIN_FLAGS_AUTH;
use aclfilter::messages::JoinMessage;
use aclfilter::messages::Message;
use aclfilter::messages::ServerMetaMessage;
use aclfilter::model::ACLCHANGE_USERBITS;
use aclfilter::tier::Tier;
use aclfilter::userbits::is_userbit;
use aclfilter::userbits::set_userbit;
use aclfilter::userbits::unset_userbit;
use aclfilter::userbits::vec_to_userbits;

#[test]
fn userbits_set_and_clear_across_range() {
    let mut bits = vec_to_userbits(&vec![]);
    for u in [0u8, 1, 7, 8, 63, 64, 200, 255] {
        assert!(!is_userbit(&bits, u));
        set_userbit(&mut bits, u);
        assert!(is_userbit(&bits, u));
    }
    // neighbours of a set bit are untouched
    assert!(!is_userbit(&bits, 9));
    assert!(!is_userbit(&bits, 62));
    assert!(!is_userbit(&bits, 254));
    unset_userbit(&mut bits, 8);
    assert!(!is_userbit(&bits, 8));
    assert!(is_userbit(&bits, 7));
    assert!(is_userbit(&bits, 255));
}

#[test]
fn userbits_from_list_replaces_membership() {
    let bits = vec_to_userbits(&vec![3, 200, 3]);
    assert!(is_userbit(&bits, 3));
    assert!(is_userbit(&bits, 200));
    assert!(!is_userbit(&bits, 0));
    assert!(!is_userbit(&bits, 255));
}

#[test]
fn tier_order_and_codes() {
    assert!(Tier::Operator.satisfies(Tier::Guest));
    assert!(Tier::Trusted.satisfies(Tier::Trusted));
    assert!(!Tier::Guest.satisfies(Tier::Trusted));
    assert!(!Tier::Authenticated.satisfies(Tier::Operator));
    assert_eq!(Tier::from_code(0), Tier::Operator);
    assert_eq!(Tier::from_code(1), Tier::Trusted);
    assert_eq!(Tier::from_code(2), Tier::Authenticated);
    assert_eq!(Tier::from_code(3), Tier::Guest);
    // out-of-range codes resolve to Guest, never fail
    assert_eq!(Tier::from_code(4), Tier::Guest);
    assert_eq!(Tier::from_code(200), Tier::Guest);
}

#[test]
fn identity_zero_is_always_operator() {
    let users = UserACLs::new();
    assert!(users.is_op(0));
    assert_eq!(users.tier(0), Tier::Operator);
    assert_eq!(users.tier(5), Tier::Guest);
}

#[test]
fn effective_tier_priority_first_match_wins() {
    let mut f = AclFilter::new();
    f.filter_message(&Message::ServerMeta(ServerMetaMessage::SessionOwner(0, vec![5])));
    f.filter_message(&Message::ServerMeta(ServerMetaMessage::TrustedUsers(0, vec![5, 6])));
    let join = JoinMessage { flags: JOIN_FLAGS_AUTH, name: String::from("eve") };
    f.filter_message(&Message::ServerMeta(ServerMetaMessage::Join(7, join)));
    assert_eq!(f.users().tier(5), Tier::Operator);
    assert_eq!(f.users().tier(6), Tier::Trusted);
    assert_eq!(f.users().tier(7), Tier::Authenticated);
    assert_eq!(f.users().tier(8), Tier::Guest);
}

#[test]
fn join_without_auth_flag_changes_nothing() {
    let mut f = AclFilter::new();
    let join = JoinMessage { flags: 0, name: String::from("anon") };
    let (ok, mask) = f.filter_message(&Message::ServerMeta(ServerMetaMessage::Join(9, join)));
    assert!(ok);
    assert_eq!(mask, 0);
    assert_eq!(f.users().tier(9), Tier::Guest);
}

#[test]
fn join_with_auth_flag_marks_authenticated() {
    let mut f = AclFilter::new();
    let join = JoinMessage { flags: JOIN_FLAGS_AUTH, name: String::from("abel") };
    let (ok, mask) = f.filter_message(&Message::ServerMeta(ServerMetaMessage::Join(9, join)));
    assert!(ok);
    assert_eq!(mask, ACLCHANGE_USERBITS);
    assert_eq!(f.users().tier(9), Tier::Authenticated);
}

#[test]
fn repeated_identical_events_are_idempotent() {
    let mut once = AclFilter::new();
    let mut twice = AclFilter::new();
    let join = |name: &str| JoinMessage { flags: JOIN_FLAGS_AUTH, name: String::from(name) };
    once.filter_message(&Message::ServerMeta(ServerMetaMessage::Join(4, join("ada"))));
    twice.filter_message(&Message::ServerMeta(ServerMetaMessage::Join(4, join("ada"))));
    twice.filter_message(&Message::ServerMeta(ServerMetaMessage::Join(4, join("ada"))));
    once.filter_message(&Message::ServerMeta(ServerMetaMessage::SessionOwner(0, vec![4, 5])));
    twice.filter_message(&Message::ServerMeta(ServerMetaMessage::SessionOwner(0, vec![4, 5])));
    twice.filter_message(&Message::ServerMeta(ServerMetaMessage::SessionOwner(0, vec![4, 5])));
    for u in 0..=255u8 {
        assert_eq!(once.users().tier(u), twice.users().tier(u));
    }
}

#[test]
fn leave_clears_operator_trusted_and_lock() {
    let mut f = AclFilter::new();
    f.filter_message(&Message::ServerMeta(ServerMetaMessage::SessionOwner(0, vec![7])));
    f.filter_message(&Message::ServerMeta(ServerMetaMessage::TrustedUsers(0, vec![7])));
    let (ok, mask) =
        f.filter_message(&Message::ClientMeta(ClientMetaMessage::UserACL(0, vec![7])));
    assert!(ok);
    assert_eq!(mask, ACLCHANGE_USERBITS);
    assert!(is_userbit(&f.users().locked, 7));
    let (ok, mask) = f.filter_message(&Message::ServerMeta(ServerMetaMessage::Leave(7)));
    assert!(ok);
    assert_eq!(mask, ACLCHANGE_USERBITS);
    assert_eq!(f.users().tier(7), Tier::Guest);
    assert!(!is_userbit(&f.users().operators, 7));
    assert!(!is_userbit(&f.users().trusted, 7));
    assert!(!is_userbit(&f.users().locked, 7));
}

#[test]
fn reset_returns_to_local_mode_with_local_operator() {
    let mut f = AclFilter::new();
    f.filter_message(&Message::ClientMeta(ClientMetaMessage::FeatureAccessLevels(0, [2u8; 9])));
    f.filter_message(&Message::ServerMeta(ServerMetaMessage::SessionOwner(0, vec![5])));
    f.reset(9);
    assert!(f.users().is_op(9));
    assert!(!f.users().is_op(5));
    assert_eq!(f.feature_tiers().put_image, Tier::Guest);
    assert_eq!(f.feature_tiers().resize, Tier::Operator);
    assert!(f.layers().is_empty());
}

#[test]
fn effective_tier_is_always_one_of_the_four() {
    let mut f = AclFilter::new();
    f.filter_message(&Message::ServerMeta(ServerMetaMessage::SessionOwner(0, vec![1, 200])));
    f.filter_message(&Message::ServerMeta(ServerMetaMessage::TrustedUsers(0, vec![2, 200])));
    let join = JoinMessage { flags: JOIN_FLAGS_AUTH, name: String::from("cara") };
    f.filter_message(&Message::ServerMeta(ServerMetaMessage::Join(3, join)));
    for u in 0..=255u8 {
        let t = f.users().tier(u);
        assert!(
            t == Tier::Operator || t == Tier::Trusted || t == Tier::Authenticated
                || t == Tier::Guest
        );
    }
    assert_eq!(f.users().tier(0), Tier::Operator);
    // membership in several sets resolves to the most privileged tier
    assert_eq!(f.users().tier(200), Tier::Operator);
}

#[test]
fn layer_creator_is_the_high_byte() {
    assert_eq!(layer_creator(0x0500), 5);
    assert_eq!(layer_creator(0x05ff), 5);
    assert_eq!(layer_creator(0xff01), 255);
    assert_eq!(layer_creator(0x0001), 0);
}
