//! The executable access-control engine.
//!
//! [`AclFilter`] holds the mutable permission state of one session and
//! evaluates one message at a time. Its contracts tie every verdict, change
//! mask, and state mutation to the declarative rules in [`crate::model`].

use std::collections::HashMap;
use std::collections::HashSet;

use vstd::prelude::*;

use crate::messages::ANNOTATION_FLAGS_PROTECT;
use crate::messages::ClientMetaMessage;
use crate::messages::CommandMessage;
use crate::messages::JOIN_FLAGS_AUTH;
use crate::messages::LAYER_ACL_FLAGS_LOCKED;
use crate::messages::LAYER_ACL_FLAGS_TIER;
use crate::messages::Message;
use crate::messages::ServerMetaMessage;
use crate::model::ACLCHANGE_FEATURES;
use crate::model::ACLCHANGE_LAYERS;
use crate::model::ACLCHANGE_USERBITS;
use crate::model::AclChange;
use crate::model::LayerAclModel;
use crate::model::StateModel;
use crate::model::client_meta_mask;
use crate::model::client_meta_next;
use crate::model::client_meta_verdict;
use crate::model::command_next;
use crate::model::command_verdict;
use crate::model::eval_mask;
use crate::model::eval_next;
use crate::model::eval_verdict;
use crate::model::requested_layer_acl;
use crate::model::server_meta_mask;
use crate::model::server_meta_next;
use crate::model::spec_layer_creator;
use crate::tier::FeatureTiers;
use crate::tier::Tier;
use crate::userbits::UserBits;
use crate::userbits::bit_members;
use crate::userbits::empty_userbits;
use crate::userbits::full_userbits;
use crate::userbits::is_userbit;
use crate::userbits::set_userbit;
use crate::userbits::spec_userbit;
use crate::userbits::unset_userbit;
use crate::userbits::vec_to_userbits;

verus! {

broadcast use vstd::std_specs::hash::group_hash_axioms;

/// The creator of a layer or annotation identifier: its high byte. Identifier
/// encoding is the sole mechanism of ownership attribution.
pub fn layer_creator(id: u16) -> (r: u8)
    ensures
        r == spec_layer_creator(id),
{
    (id >> 8) as u8
}

/// Session-wide user permission bits: the four membership sets and the
/// session-wide lock flag.
#[derive(Clone, Copy, Debug)]
pub struct UserACLs {
    /// Identities holding operator status.
    pub operators: UserBits,
    /// Identities marked trusted.
    pub trusted: UserBits,
    /// Identities that joined authenticated.
    pub authenticated: UserBits,
    /// Individually locked identities.
    pub locked: UserBits,
    /// The session-wide lock flag.
    pub all_locked: bool,
}

impl UserACLs {
    /// Operator status: identity 0, or membership in the operator set.
    pub open spec fn spec_is_op(&self, user: u8) -> bool {
        user == 0 || spec_userbit(self.operators, user)
    }

    /// Effective tier by priority: operator, trusted, authenticated, guest.
    pub open spec fn spec_tier(&self, user: u8) -> Tier {
        if self.spec_is_op(user) {
            Tier::Operator
        } else if spec_userbit(self.trusted, user) {
            Tier::Trusted
        } else if spec_userbit(self.authenticated, user) {
            Tier::Authenticated
        } else {
            Tier::Guest
        }
    }

    /// Empty permission state: no memberships, lock flag clear.
    pub fn new() -> (r: UserACLs)
        ensures
            forall|v: u8| !spec_userbit(r.operators, v),
            forall|v: u8| !spec_userbit(r.trusted, v),
            forall|v: u8| !spec_userbit(r.authenticated, v),
            forall|v: u8| !spec_userbit(r.locked, v),
            !r.all_locked,
    {
        UserACLs {
            operators: empty_userbits(),
            trusted: empty_userbits(),
            authenticated: empty_userbits(),
            locked: empty_userbits(),
            all_locked: false,
        }
    }

    /// Is this participant an operator?
    pub fn is_op(&self, user: u8) -> (r: bool)
        ensures
            r == self.spec_is_op(user),
    {
        user == 0 || is_userbit(&self.operators, user)
    }

    /// The highest access tier this participant's permission bits grant.
    pub fn tier(&self, user: u8) -> (r: Tier)
        ensures
            r == self.spec_tier(user),
    {
        if user == 0 || is_userbit(&self.operators, user) {
            Tier::Operator
        } else if is_userbit(&self.trusted, user) {
            Tier::Trusted
        } else if is_userbit(&self.authenticated, user) {
            Tier::Authenticated
        } else {
            Tier::Guest
        }
    }
}

/// One layer's stored access rules.
#[derive(Clone, Copy, Debug)]
pub struct LayerACL {
    /// General layer-wide lock.
    pub locked: bool,
    /// Layer general access tier.
    pub tier: Tier,
    /// Exclusive access granted to these identities; an identity outside the
    /// set is locked out whatever its tier. A rule without exclusivity holds
    /// every identity here, so the check never denies on that basis.
    pub exclusive: UserBits,
}

impl LayerACL {
    /// The mathematical model of the stored rule.
    pub open spec fn model(self) -> LayerAclModel {
        LayerAclModel {
            locked: self.locked,
            tier: self.tier,
            exclusive: bit_members(self.exclusive),
        }
    }
}

/// The access-control engine: evaluates messages and tracks the permission
/// state that future decisions depend on. Callers own one instance per
/// session; access must be serialized by the caller.
pub struct AclFilter {
    /// Session-wide user permission bits.
    pub users: UserACLs,
    /// Per-layer access rules, keyed by layer identifier.
    pub layers: HashMap<u16, LayerACL>,
    /// Annotations currently protected against non-owner edits.
    pub locked_annotations: HashSet<u16>,
    /// The feature tier table.
    pub feature_tier: FeatureTiers,
}

impl AclFilter {
    /// The mathematical model of the engine's whole state.
    pub open spec fn model(&self) -> StateModel {
        StateModel {
            operators: bit_members(self.users.operators),
            trusted: bit_members(self.users.trusted),
            authenticated: bit_members(self.users.authenticated),
            locked: bit_members(self.users.locked),
            all_locked: self.users.all_locked,
            layers: Map::new(
                |id: u16| self.layers@.contains_key(id),
                |id: u16| self.layers@[id].model(),
            ),
            protected_annotations: self.locked_annotations@,
            features: self.feature_tier,
        }
    }

    /// Create a fresh engine with default settings: no memberships, no layer
    /// rules, no protected annotations, default feature tiers.
    pub fn new() -> (r: AclFilter)
        ensures
            r.model() == StateModel::initial(),
    {
        let r = AclFilter {
            users: UserACLs::new(),
            layers: HashMap::new(),
            locked_annotations: HashSet::new(),
            feature_tier: FeatureTiers::defaults(),
        };
        proof {
            assert(r.model() =~~= StateModel::initial());
        }
        r
    }

    /// Read-only view of the session-wide user permission bits.
    pub fn users(&self) -> (r: &UserACLs)
        ensures
            *r == self.users,
    {
        &self.users
    }

    /// Read-only view of the per-layer access rules.
    pub fn layers(&self) -> (r: &HashMap<u16, LayerACL>)
        ensures
            r@ == self.layers@,
    {
        &self.layers
    }

    /// Read-only view of the feature tier table.
    pub fn feature_tiers(&self) -> (r: &FeatureTiers)
        ensures
            *r == self.feature_tier,
    {
        &self.feature_tier
    }

    /// Reset the engine back to local operating mode: default state, with the
    /// local participant unconditionally granted operator status.
    pub fn reset(&mut self, local_user: u8)
        ensures
            final(self).model() == StateModel::reset(local_user),
    {
        *self = AclFilter::new();
        set_userbit(&mut self.users.operators, local_user);
        proof {
            assert(self.model() =~~= StateModel::reset(local_user));
        }
    }

    /// Evaluate one message.
    ///
    /// Returns whether the message passes the filter, together with the
    /// change mask describing which permission state categories changed, so a
    /// presentation layer can refresh any cached view. The verdict, the mask,
    /// and the state mutation are exactly those of the declarative rules in
    /// [`crate::model`].
    pub fn filter_message(&mut self, msg: &Message) -> (r: (bool, AclChange))
        ensures
            r.0 == eval_verdict(old(self).model(), *msg),
            r.1 == eval_mask(old(self).model(), *msg),
            final(self).model() == eval_next(old(self).model(), *msg),
    {
        match msg {
            Message::Control(_) => (true, 0),
            Message::ServerMeta(m) => {
                let change = self.handle_servermeta(m);
                (true, change)
            },
            Message::ClientMeta(m) => self.handle_clientmeta(m),
            Message::Command(m) => {
                let ok = self.handle_command(m);
                (ok, 0)
            },
        }
    }

    /// Apply a server-announced state message; never denied.
    fn handle_servermeta(&mut self, message: &ServerMetaMessage) -> (r: AclChange)
        ensures
            r == server_meta_mask(old(self).model(), *message),
            final(self).model() == server_meta_next(old(self).model(), *message),
    {
        match message {
            ServerMetaMessage::Join(u, m) => {
                if m.flags & JOIN_FLAGS_AUTH != 0 {
                    set_userbit(&mut self.users.authenticated, *u);
                    proof {
                        assert(self.model() =~~= server_meta_next(old(self).model(), *message));
                    }
                    ACLCHANGE_USERBITS
                } else {
                    0
                }
            },
            ServerMetaMessage::Leave(u) => {
                unset_userbit(&mut self.users.operators, *u);
                unset_userbit(&mut self.users.trusted, *u);
                unset_userbit(&mut self.users.authenticated, *u);
                unset_userbit(&mut self.users.locked, *u);
                proof {
                    assert(self.model() =~~= server_meta_next(old(self).model(), *message));
                }
                ACLCHANGE_USERBITS
            },
            ServerMetaMessage::SessionOwner(_, users) => {
                self.users.operators = vec_to_userbits(users);
                proof {
                    assert(self.model() =~~= server_meta_next(old(self).model(), *message));
                }
                ACLCHANGE_USERBITS
            },
            ServerMetaMessage::TrustedUsers(_, users) => {
                self.users.trusted = vec_to_userbits(users);
                proof {
                    assert(self.model() =~~= server_meta_next(old(self).model(), *message));
                }
                ACLCHANGE_USERBITS
            },
            _ => 0,
        }
    }

    /// Evaluate a client state message and apply its effect when authorized.
    fn handle_clientmeta(&mut self, message: &ClientMetaMessage) -> (r: (bool, AclChange))
        ensures
            r.0 == client_meta_verdict(old(self).model(), *message),
            r.1 == client_meta_mask(old(self).model(), *message),
            final(self).model() == client_meta_next(old(self).model(), *message),
    {
        match message {
            ClientMetaMessage::Interval(_, _) => (true, 0),
            ClientMetaMessage::LaserTrail(u, _) => (
                self.users.tier(*u).satisfies(self.feature_tier.laser),
                0,
            ),
            ClientMetaMessage::MovePointer(_, _) => (true, 0),
            ClientMetaMessage::Marker(_, _) => (true, 0),
            ClientMetaMessage::UserACL(u, users) => {
                if self.users.is_op(*u) {
                    self.users.locked = vec_to_userbits(users);
                    proof {
                        assert(self.model() =~~= client_meta_next(old(self).model(), *message));
                    }
                    (true, ACLCHANGE_USERBITS)
                } else {
                    (false, 0)
                }
            },
            ClientMetaMessage::LayerACL(u, m) => {
                let tier = self.users.tier(*u);
                if tier.satisfies(self.feature_tier.edit_layers) || (tier.satisfies(
                    self.feature_tier.own_layers,
                ) && layer_creator(m.id) == *u) {
                    if m.flags == Tier::Guest.code() && m.exclusive.len() == 0 {
                        match self.layers.remove(&m.id) {
                            Some(_) => {
                                proof {
                                    assert(self.model() =~~= client_meta_next(
                                        old(self).model(),
                                        *message,
                                    ));
                                }
                                (true, ACLCHANGE_LAYERS)
                            },
                            None => {
                                proof {
                                    assert(self.model() =~~= client_meta_next(
                                        old(self).model(),
                                        *message,
                                    ));
                                }
                                (true, 0)
                            },
                        }
                    } else {
                        let exclusive: UserBits = if m.exclusive.len() == 0 {
                            full_userbits()
                        } else {
                            vec_to_userbits(&m.exclusive)
                        };
                        let entry = LayerACL {
                            locked: m.flags & LAYER_ACL_FLAGS_LOCKED != 0,
                            tier: Tier::from_code(m.flags & LAYER_ACL_FLAGS_TIER),
                            exclusive,
                        };
                        proof {
                            assert(entry.model() =~~= requested_layer_acl(m.flags, m.exclusive@));
                        }
                        self.layers.insert(m.id, entry);
                        proof {
                            assert(self.model() =~~= client_meta_next(old(self).model(), *message));
                        }
                        (true, ACLCHANGE_LAYERS)
                    }
                } else {
                    (false, 0)
                }
            },
            ClientMetaMessage::FeatureAccessLevels(u, f) => {
                if self.users.is_op(*u) {
                    self.feature_tier = FeatureTiers::from_codes(f);
                    proof {
                        assert(self.model() =~~= client_meta_next(old(self).model(), *message));
                    }
                    (true, ACLCHANGE_FEATURES)
                } else {
                    (false, 0)
                }
            },
            ClientMetaMessage::DefaultLayer(u, _) => (self.users.is_op(*u), 0),
            ClientMetaMessage::Filtered(_, _) => (false, 0),
        }
    }

    /// Evaluate a canvas command and apply its bookkeeping effect when
    /// authorized. Locks take precedence over every per-command rule.
    #[verifier::rlimit(100)]
    fn handle_command(&mut self, message: &CommandMessage) -> (r: bool)
        ensures
            r == command_verdict(old(self).model(), *message),
            final(self).model() == command_next(old(self).model(), *message),
    {
        if self.users.all_locked || is_userbit(&self.users.locked, message.user()) {
            return false;
        }
        match message {
            CommandMessage::UndoPoint(_) => true,
            CommandMessage::CanvasResize(u) => self.users.tier(*u).satisfies(
                self.feature_tier.resize,
            ),
            CommandMessage::LayerCreate(u, id) => {
                if !self.users.is_op(*u) && layer_creator(*id) != *u {
                    // enforce the layer identifier prefixing scheme for non-operators
                    return false;
                }
                let tier = self.users.tier(*u);
                tier.satisfies(self.feature_tier.edit_layers) || tier.satisfies(
                    self.feature_tier.own_layers,
                )
            },
            CommandMessage::LayerAttributes(u, id) => self.check_layer_perms(*u, *id),
            CommandMessage::LayerRetitle(u, id) => self.check_layer_perms(*u, *id),
            CommandMessage::LayerOrder(u) => self.users.tier(*u).satisfies(
                self.feature_tier.edit_layers,
            ),
            CommandMessage::LayerDelete(u, id) => {
                let ok = self.check_layer_perms(*u, *id);
                if ok {
                    self.layers.remove(id);
                    proof {
                        assert(self.model() =~~= command_next(old(self).model(), *message));
                    }
                }
                ok
            },
            CommandMessage::LayerVisibility(_, _) => true,
            CommandMessage::PutImage(u, layer) => self.users.tier(*u).satisfies(
                self.feature_tier.put_image,
            ) && !self.is_layer_locked(*u, *layer),
            CommandMessage::FillRect(u, layer) => self.users.tier(*u).satisfies(
                self.feature_tier.put_image,
            ) && !self.is_layer_locked(*u, *layer),
            CommandMessage::PenUp(_) => true,
            CommandMessage::AnnotationCreate(u, id) => self.users.tier(*u).satisfies(
                self.feature_tier.create_annotation,
            ) && (self.users.is_op(*u) || layer_creator(*id) == *u),
            CommandMessage::AnnotationReshape(u, id) => self.users.is_op(*u) || *u == layer_creator(
                *id,
            ),
            CommandMessage::AnnotationEdit(u, m) => {
                let ok = self.users.is_op(*u) || *u == layer_creator(m.id);
                if ok {
                    if m.flags & ANNOTATION_FLAGS_PROTECT != 0 {
                        self.locked_annotations.insert(m.id);
                    } else {
                        self.locked_annotations.remove(&m.id);
                    }
                    proof {
                        assert(self.model() =~~= command_next(old(self).model(), *message));
                    }
                }
                ok
            },
            CommandMessage::AnnotationDelete(u, id) => {
                let ok = self.users.is_op(*u) || *u == layer_creator(*id);
                if ok {
                    self.locked_annotations.remove(id);
                    proof {
                        assert(self.model() =~~= command_next(old(self).model(), *message));
                    }
                }
                ok
            },
            CommandMessage::PutTile(u) => self.users.is_op(*u),
            CommandMessage::CanvasBackground(u) => self.users.tier(*u).satisfies(
                self.feature_tier.background,
            ),
            CommandMessage::DrawDabsClassic(u, layer) => !self.is_layer_locked(*u, *layer),
            CommandMessage::DrawDabsPixel(u, layer) => !self.is_layer_locked(*u, *layer),
            CommandMessage::DrawDabsPixelSquare(u, layer) => !self.is_layer_locked(*u, *layer),
            CommandMessage::MoveRect(u, layer) => self.users.tier(*u).satisfies(
                self.feature_tier.move_rect,
            ) && !self.is_layer_locked(*u, *layer),
            CommandMessage::Undo(u) => self.users.tier(*u).satisfies(self.feature_tier.undo),
        }
    }

    /// May this participant edit this layer's properties (edit-any-layer tier,
    /// or ownership by identifier encoding plus the own-layer tier)?
    pub fn check_layer_perms(&self, user: u8, layer: u16) -> (r: bool)
        ensures
            r == self.model().may_edit_layer(user, layer),
    {
        let tier = self.users.tier(user);
        tier.satisfies(self.feature_tier.edit_layers) || (user == layer_creator(layer)
            && tier.satisfies(self.feature_tier.own_layers))
    }

    /// Is this layer locked for this participant (stored rule's lock flag,
    /// exclusive set, or tier requirement)? A layer without a stored rule is
    /// not locked.
    pub fn is_layer_locked(&self, user: u8, layer: u16) -> (r: bool)
        ensures
            r == self.model().layer_locked_for(user, layer),
    {
        match self.layers.get(&layer) {
            Some(l) => l.locked || !is_userbit(&l.exclusive, user) || !self.users.tier(
                user,
            ).satisfies(l.tier),
            None => false,
        }
    }
}

} // verus!
