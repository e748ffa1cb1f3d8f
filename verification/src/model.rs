//! The mathematical model of the engine's permission state, and the
//! declarative evaluation rules every message is judged by.
//!
//! The executable engine in [`crate::filter`] promises, in its contracts, to
//! return exactly the verdict and change mask given by [`eval_verdict`] and
//! [`eval_mask`], and to leave its state equal to [`eval_next`].

use vstd::prelude::*;

use crate::messages::ANNOTATION_FLAGS_PROTECT;
use crate::messages::ClientMetaMessage;
use crate::messages::CommandMessage;
use crate::messages::JOIN_FLAGS_AUTH;
use crate::messages::LAYER_ACL_FLAGS_LOCKED;
use crate::messages::LAYER_ACL_FLAGS_TIER;
use crate::messages::Message;
use crate::messages::ServerMetaMessage;
use crate::tier::FeatureTiers;
use crate::tier::Tier;

verus! {

/// Change-mask bit: session-wide user membership state changed.
pub const ACLCHANGE_USERBITS: u32 = 0x01;

/// Change-mask bit: per-layer access-control state changed.
pub const ACLCHANGE_LAYERS: u32 = 0x02;

/// Change-mask bit: the feature tier table changed.
pub const ACLCHANGE_FEATURES: u32 = 0x04;

/// A bitwise-OR of zero or more `ACLCHANGE_` flags, reported to the caller so
/// a presentation layer knows which cached permission state to refresh.
pub type AclChange = u32;

/// The model of one layer's access rules.
#[verifier::ext_equal]
pub ghost struct LayerAclModel {
    /// Layer-wide lock, independent of tier.
    pub locked: bool,
    /// Minimum tier for general access.
    pub tier: Tier,
    /// Identities with exclusive access. A rule created from an empty
    /// exclusive list holds every identity here, so exclusivity is not in
    /// effect.
    pub exclusive: Set<u8>,
}

/// The model of the engine's whole permission state.
#[verifier::ext_equal]
pub ghost struct StateModel {
    /// Identities holding operator status.
    pub operators: Set<u8>,
    /// Identities marked trusted.
    pub trusted: Set<u8>,
    /// Identities that joined authenticated.
    pub authenticated: Set<u8>,
    /// Individually locked identities.
    pub locked: Set<u8>,
    /// The session-wide lock flag.
    pub all_locked: bool,
    /// Per-layer access rules, keyed by layer identifier.
    pub layers: Map<u16, LayerAclModel>,
    /// Annotations currently protected against non-owner edits.
    pub protected_annotations: Set<u16>,
    /// The feature tier table.
    pub features: FeatureTiers,
}

/// The set of identities a replacement list denotes.
pub open spec fn listed_users(users: Seq<u8>) -> Set<u8> {
    Set::new(|u: u8| users.contains(u))
}

/// The creator of a layer or annotation: the high byte of its identifier.
pub open spec fn spec_layer_creator(id: u16) -> u8 {
    (id >> 8) as u8
}

impl StateModel {
    /// The state of a fresh engine: no memberships, no layer rules, no
    /// protected annotations, default feature tiers.
    pub open spec fn initial() -> StateModel {
        StateModel {
            operators: Set::empty(),
            trusted: Set::empty(),
            authenticated: Set::empty(),
            locked: Set::empty(),
            all_locked: false,
            layers: Map::empty(),
            protected_annotations: Set::empty(),
            features: FeatureTiers::spec_default(),
        }
    }

    /// The state after a reset into local operating mode: the initial state
    /// with the local participant unconditionally granted operator status.
    pub open spec fn reset(local_user: u8) -> StateModel {
        StateModel {
            operators: Set::empty().insert(local_user),
            ..StateModel::initial()
        }
    }

    /// Identity 0 is reserved for the server and always operator-equivalent;
    /// anyone in the operator set is an operator.
    pub open spec fn is_op(self, user: u8) -> bool {
        user == 0 || self.operators.contains(user)
    }

    /// A participant's effective tier, by priority: operator, trusted,
    /// authenticated, guest.
    pub open spec fn tier_of(self, user: u8) -> Tier {
        if self.is_op(user) {
            Tier::Operator
        } else if self.trusted.contains(user) {
            Tier::Trusted
        } else if self.authenticated.contains(user) {
            Tier::Authenticated
        } else {
            Tier::Guest
        }
    }

    /// Is the layer locked for this participant? True only when a rule entry
    /// exists and the entry's lock flag is set, or the participant is outside
    /// the exclusive set, or the participant's tier misses the entry's tier.
    /// Absence of an entry means not locked.
    pub open spec fn layer_locked_for(self, user: u8, layer: u16) -> bool {
        self.layers.contains_key(layer) && {
            let l = self.layers[layer];
            l.locked || !l.exclusive.contains(user) || !self.tier_of(user).spec_satisfies(l.tier)
        }
    }

    /// May this participant edit this layer's properties: either the
    /// edit-any-layer tier is met, or the participant created the layer and
    /// the own-layer tier is met.
    pub open spec fn may_edit_layer(self, user: u8, layer: u16) -> bool {
        ||| self.tier_of(user).spec_satisfies(self.features.edit_layers)
        ||| (user == spec_layer_creator(layer) && self.tier_of(user).spec_satisfies(
            self.features.own_layers,
        ))
    }
}

/// The model of the layer rule a layer-ACL request carries: bit 7 of the
/// flags is the lock, bits 0-2 the tier code, and an empty exclusive list
/// grants every identity exclusive access (exclusivity off).
pub open spec fn requested_layer_acl(flags: u8, exclusive: Seq<u8>) -> LayerAclModel {
    LayerAclModel {
        locked: flags & LAYER_ACL_FLAGS_LOCKED != 0,
        tier: Tier::spec_from_code(flags & LAYER_ACL_FLAGS_TIER),
        exclusive: if exclusive.len() == 0 {
            Set::new(|u: u8| true)
        } else {
            listed_users(exclusive)
        },
    }
}

/// Does a layer-ACL request ask for the default rule (unlocked, Guest tier,
/// no exclusive access)? The flag byte is then exactly the Guest tier code,
/// 3, with the lock bit clear. Such a request removes the entry instead.
pub open spec fn requests_default_acl(flags: u8, exclusive: Seq<u8>) -> bool {
    flags == 3 && exclusive.len() == 0
}

/// Verdict on a server-announced state message: never denied.
pub open spec fn server_meta_next(s: StateModel, m: ServerMetaMessage) -> StateModel {
    match m {
        ServerMetaMessage::Join(u, join) => if join.flags & JOIN_FLAGS_AUTH != 0 {
            StateModel { authenticated: s.authenticated.insert(u), ..s }
        } else {
            s
        },
        // A leave event clears the four session-wide memberships; per-layer
        // exclusive grants for the departing identity are deliberately left
        // in place.
        ServerMetaMessage::Leave(u) => StateModel {
            operators: s.operators.remove(u),
            trusted: s.trusted.remove(u),
            authenticated: s.authenticated.remove(u),
            locked: s.locked.remove(u),
            ..s
        },
        ServerMetaMessage::SessionOwner(_, users) => StateModel {
            operators: listed_users(users@),
            ..s
        },
        ServerMetaMessage::TrustedUsers(_, users) => StateModel {
            trusted: listed_users(users@),
            ..s
        },
        _ => s,
    }
}

/// The change mask a server-announced state message reports.
pub open spec fn server_meta_mask(s: StateModel, m: ServerMetaMessage) -> AclChange {
    match m {
        ServerMetaMessage::Join(_, join) => if join.flags & JOIN_FLAGS_AUTH != 0 {
            ACLCHANGE_USERBITS
        } else {
            0
        },
        ServerMetaMessage::Leave(_) => ACLCHANGE_USERBITS,
        ServerMetaMessage::SessionOwner(_, _) => ACLCHANGE_USERBITS,
        ServerMetaMessage::TrustedUsers(_, _) => ACLCHANGE_USERBITS,
        _ => 0,
    }
}

/// Verdict on a client state message.
pub open spec fn client_meta_verdict(s: StateModel, m: ClientMetaMessage) -> bool {
    match m {
        ClientMetaMessage::Interval(_, _) => true,
        ClientMetaMessage::LaserTrail(u, _) => s.tier_of(u).spec_satisfies(s.features.laser),
        ClientMetaMessage::MovePointer(_, _) => true,
        ClientMetaMessage::Marker(_, _) => true,
        ClientMetaMessage::UserACL(u, _) => s.is_op(u),
        ClientMetaMessage::LayerACL(u, acl) => s.may_edit_layer(u, acl.id),
        ClientMetaMessage::FeatureAccessLevels(u, _) => s.is_op(u),
        ClientMetaMessage::DefaultLayer(u, _) => s.is_op(u),
        ClientMetaMessage::Filtered(_, _) => false,
    }
}

/// State after a client state message; a denied message changes nothing.
pub open spec fn client_meta_next(s: StateModel, m: ClientMetaMessage) -> StateModel {
    if !client_meta_verdict(s, m) {
        s
    } else {
        match m {
            ClientMetaMessage::UserACL(_, users) => StateModel {
                locked: listed_users(users@),
                ..s
            },
            ClientMetaMessage::LayerACL(_, acl) => if requests_default_acl(
                acl.flags,
                acl.exclusive@,
            ) {
                StateModel { layers: s.layers.remove(acl.id), ..s }
            } else {
                StateModel {
                    layers: s.layers.insert(acl.id, requested_layer_acl(acl.flags, acl.exclusive@)),
                    ..s
                }
            },
            ClientMetaMessage::FeatureAccessLevels(_, codes) => StateModel {
                features: FeatureTiers::spec_from_codes(codes),
                ..s
            },
            _ => s,
        }
    }
}

/// The change mask a client state message reports; a denied message reports
/// nothing.
pub open spec fn client_meta_mask(s: StateModel, m: ClientMetaMessage) -> AclChange {
    if !client_meta_verdict(s, m) {
        0
    } else {
        match m {
            ClientMetaMessage::UserACL(_, _) => ACLCHANGE_USERBITS,
            ClientMetaMessage::LayerACL(_, acl) => if requests_default_acl(
                acl.flags,
                acl.exclusive@,
            ) && !s.layers.contains_key(acl.id) {
                0
            } else {
                ACLCHANGE_LAYERS
            },
            ClientMetaMessage::FeatureAccessLevels(_, _) => ACLCHANGE_FEATURES,
            _ => 0,
        }
    }
}

/// Verdict on a canvas command. Locks take precedence: while the session-wide
/// lock flag is set, or the sender is individually locked, every command is
/// denied regardless of tier. Otherwise each command type has its own rule.
pub open spec fn command_verdict(s: StateModel, c: CommandMessage) -> bool {
    if s.all_locked || s.locked.contains(c.spec_user()) {
        false
    } else {
        match c {
            CommandMessage::UndoPoint(_) => true,
            CommandMessage::CanvasResize(u) => s.tier_of(u).spec_satisfies(s.features.resize),
            CommandMessage::LayerCreate(u, id) => (s.is_op(u) || spec_layer_creator(id) == u) && {
                ||| s.tier_of(u).spec_satisfies(s.features.edit_layers)
                ||| s.tier_of(u).spec_satisfies(s.features.own_layers)
            },
            CommandMessage::LayerAttributes(u, id) => s.may_edit_layer(u, id),
            CommandMessage::LayerRetitle(u, id) => s.may_edit_layer(u, id),
            CommandMessage::LayerOrder(u) => s.tier_of(u).spec_satisfies(s.features.edit_layers),
            CommandMessage::LayerDelete(u, id) => s.may_edit_layer(u, id),
            CommandMessage::LayerVisibility(_, _) => true,
            CommandMessage::PutImage(u, layer) => s.tier_of(u).spec_satisfies(s.features.put_image)
                && !s.layer_locked_for(u, layer),
            CommandMessage::FillRect(u, layer) => s.tier_of(u).spec_satisfies(s.features.put_image)
                && !s.layer_locked_for(u, layer),
            CommandMessage::PenUp(_) => true,
            CommandMessage::AnnotationCreate(u, id) => s.tier_of(u).spec_satisfies(
                s.features.create_annotation,
            ) && (s.is_op(u) || spec_layer_creator(id) == u),
            CommandMessage::AnnotationReshape(u, id) => s.is_op(u) || u == spec_layer_creator(id),
            CommandMessage::AnnotationEdit(u, edit) => s.is_op(u) || u == spec_layer_creator(
                edit.id,
            ),
            CommandMessage::AnnotationDelete(u, id) => s.is_op(u) || u == spec_layer_creator(id),
            CommandMessage::PutTile(u) => s.is_op(u),
            CommandMessage::CanvasBackground(u) => s.tier_of(u).spec_satisfies(
                s.features.background,
            ),
            CommandMessage::DrawDabsClassic(u, layer) => !s.layer_locked_for(u, layer),
            CommandMessage::DrawDabsPixel(u, layer) => !s.layer_locked_for(u, layer),
            CommandMessage::DrawDabsPixelSquare(u, layer) => !s.layer_locked_for(u, layer),
            CommandMessage::MoveRect(u, layer) => s.tier_of(u).spec_satisfies(s.features.move_rect)
                && !s.layer_locked_for(u, layer),
            CommandMessage::Undo(u) => s.tier_of(u).spec_satisfies(s.features.undo),
        }
    }
}

/// State after a canvas command. Only an allowed layer deletion or annotation
/// edit/deletion mutates anything; a denied command changes nothing.
pub open spec fn command_next(s: StateModel, c: CommandMessage) -> StateModel {
    if !command_verdict(s, c) {
        s
    } else {
        match c {
            CommandMessage::LayerDelete(_, id) => StateModel {
                layers: s.layers.remove(id),
                ..s
            },
            CommandMessage::AnnotationEdit(_, edit) => if edit.flags & ANNOTATION_FLAGS_PROTECT
                != 0 {
                StateModel {
                    protected_annotations: s.protected_annotations.insert(edit.id),
                    ..s
                }
            } else {
                StateModel {
                    protected_annotations: s.protected_annotations.remove(edit.id),
                    ..s
                }
            },
            CommandMessage::AnnotationDelete(_, id) => StateModel {
                protected_annotations: s.protected_annotations.remove(id),
                ..s
            },
            _ => s,
        }
    }
}

/// The verdict on one message, by category: session-control and server state
/// are always allowed; client state and canvas commands each follow their own
/// rules.
pub open spec fn eval_verdict(s: StateModel, msg: Message) -> bool {
    match msg {
        Message::Control(_) => true,
        Message::ServerMeta(_) => true,
        Message::ClientMeta(m) => client_meta_verdict(s, m),
        Message::Command(c) => command_verdict(s, c),
    }
}

/// The change mask one message reports. Canvas commands never surface a mask,
/// even when they drop a layer rule or a protect flag.
pub open spec fn eval_mask(s: StateModel, msg: Message) -> AclChange {
    match msg {
        Message::Control(_) => 0,
        Message::ServerMeta(m) => server_meta_mask(s, m),
        Message::ClientMeta(m) => client_meta_mask(s, m),
        Message::Command(_) => 0,
    }
}

/// The state after one message: the engine's whole behaviour as a function of
/// current state and input.
pub open spec fn eval_next(s: StateModel, msg: Message) -> StateModel {
    match msg {
        Message::Control(_) => s,
        Message::ServerMeta(m) => server_meta_next(s, m),
        Message::ClientMeta(m) => client_meta_next(s, m),
        Message::Command(c) => command_next(s, c),
    }
}

} // verus!
