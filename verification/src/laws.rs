//! Session-wide laws of the evaluation rules, stated and proved over the
//! mathematical model in [`crate::model`].

use vstd::prelude::*;

use crate::messages::CommandMessage;
use crate::messages::ServerMetaMessage;
use crate::model::StateModel;
use crate::model::command_verdict;
use crate::model::requested_layer_acl;
use crate::model::server_meta_next;
use crate::model::spec_layer_creator;
use crate::tier::Tier;

verus! {

/// Repeated identical server-announced membership events are idempotent:
/// applying the same join, leave, operator-list or trusted-list event twice
/// leaves the same state — and so the same derived effective tier for every
/// participant — as applying it once.
pub proof fn lemma_server_event_idempotent(s: StateModel, m: ServerMetaMessage)
    ensures
        server_meta_next(server_meta_next(s, m), m) == server_meta_next(s, m),
        forall|p: u8|
            server_meta_next(server_meta_next(s, m), m).tier_of(p) == server_meta_next(
                s,
                m,
            ).tier_of(p),
{
    let s1 = server_meta_next(s, m);
    let s2 = server_meta_next(s1, m);
    assert(s2 =~~= s1);
}

/// Every participant's effective tier is exactly one of the four tiers, and
/// identity 0 always holds the Operator tier.
pub proof fn lemma_tier_total(s: StateModel, p: u8)
    ensures
        s.tier_of(p) == Tier::Operator || s.tier_of(p) == Tier::Trusted || s.tier_of(p)
            == Tier::Authenticated || s.tier_of(p) == Tier::Guest,
        s.tier_of(0) == Tier::Operator,
{
}

/// Ownership is encoded in the identifier: the creator of a layer or
/// annotation identifier is its high byte, and a non-operator's command
/// creating such an identifier is denied unless the sender is that creator.
pub proof fn lemma_ownership_encoding(s: StateModel, u: u8, id: u16)
    ensures
        spec_layer_creator(id) == id >> 8,
        !s.is_op(u) && spec_layer_creator(id) != u ==> !command_verdict(
            s,
            CommandMessage::LayerCreate(u, id),
        ),
        !s.is_op(u) && spec_layer_creator(id) != u ==> !command_verdict(
            s,
            CommandMessage::AnnotationCreate(u, id),
        ),
{
    assert(id >> 8 < 256) by (bit_vector);
}

/// Locks take precedence over tier: while the session-wide lock flag is set,
/// or the sender is individually locked, every canvas command is denied,
/// whatever the sender's tier.
pub proof fn lemma_lock_precedence(s: StateModel, c: CommandMessage)
    requires
        s.all_locked || s.locked.contains(c.spec_user()),
    ensures
        !command_verdict(s, c),
{
}

/// Exclusive access: a stored layer rule denies access to any participant
/// outside its exclusive set, whatever that participant's tier; and a rule
/// created from an empty exclusive list never denies on that basis — only its
/// lock flag and tier requirement remain.
pub proof fn lemma_exclusive_access(s: StateModel, u: u8, layer: u16, flags: u8, members: Seq<u8>)
    ensures
        ({
            let rule = requested_layer_acl(flags, members);
            let s2 = StateModel { layers: s.layers.insert(layer, rule), ..s };
            &&& members.len() > 0 && !members.contains(u) ==> s2.layer_locked_for(u, layer)
            &&& members.len() == 0 ==> (s2.layer_locked_for(u, layer) <==> (rule.locked
                || !s2.tier_of(u).spec_satisfies(rule.tier)))
        }),
{
}

/// Round-trip: installing the default layer rule (unlocked, Guest tier, empty
/// exclusive list) is equivalent to removing the layer's rule — the layer is
/// locked for the same participants either way, namely for none.
pub proof fn lemma_default_acl_round_trip(s: StateModel, q: u8, layer: u16)
    ensures
        ({
            let removed = StateModel { layers: s.layers.remove(layer), ..s };
            let upserted = StateModel {
                layers: s.layers.insert(layer, requested_layer_acl(3, Seq::empty())),
                ..s
            };
            &&& upserted.layer_locked_for(q, layer) == removed.layer_locked_for(q, layer)
            &&& !upserted.layer_locked_for(q, layer)
        }),
{
    assert(3u8 & 0x07 == 3) by (bit_vector);
    assert(3u8 & 0x80 == 0) by (bit_vector);
}

} // verus!
