//! The closed set of already-decoded session messages the engine evaluates.
//!
//! Messages are partitioned into four categories, each with its own decision
//! contract: session-control plumbing, server-announced state, client state
//! requests, and canvas commands. Every message carries the acting
//! participant's identity explicitly; payload details that no access rule
//! consults are elided.

use vstd::prelude::*;

verus! {

/// Join-message flag: the joining participant is authenticated.
pub const JOIN_FLAGS_AUTH: u8 = 0x01;

/// Annotation-edit flag: protect the annotation against non-owner edits.
pub const ANNOTATION_FLAGS_PROTECT: u8 = 0x01;

/// Layer-ACL flag bit carrying the layer-wide lock.
pub const LAYER_ACL_FLAGS_LOCKED: u8 = 0x80;

/// Layer-ACL flag bits carrying the general access tier code.
pub const LAYER_ACL_FLAGS_TIER: u8 = 0x07;

/// Payload of a join announcement.
pub struct JoinMessage {
    /// Join flags; only `JOIN_FLAGS_AUTH` affects permission state.
    pub flags: u8,
    /// The participant's display name.
    pub name: String,
}

/// Payload of a layer access-control change request.
pub struct LayerACLMessage {
    /// The layer whose rules change; its high byte names the layer's creator.
    pub id: u16,
    /// Bit 7 is the lock flag, bits 0-2 the general access tier code.
    pub flags: u8,
    /// Identities granted exclusive access; empty means exclusivity is not in
    /// effect.
    pub exclusive: Vec<u8>,
}

/// Payload of an annotation edit.
pub struct AnnotationEditMessage {
    /// The annotation; its high byte names the annotation's creator.
    pub id: u16,
    /// Edit flags; only `ANNOTATION_FLAGS_PROTECT` affects permission state.
    pub flags: u8,
}

/// Session-control protocol plumbing: never state-affecting, always allowed.
pub enum ControlMessage {
    /// An opaque server command.
    ServerCommand(u8, String),
    /// Disconnect notice.
    Disconnect(u8),
    /// Keepalive ping or pong.
    Ping(u8, bool),
}

/// Messages announced by the server itself, which is trusted by construction:
/// never denied, but some replace membership state.
pub enum ServerMetaMessage {
    /// A participant joined; the payload's auth flag marks authentication.
    Join(u8, JoinMessage),
    /// A participant left the session.
    Leave(u8),
    /// Wholesale replacement of the operator list.
    SessionOwner(u8, Vec<u8>),
    /// A chat line; no permission effect.
    Chat(u8, String),
    /// Wholesale replacement of the trusted-user list.
    TrustedUsers(u8, Vec<u8>),
    /// Session soft reset marker; no permission effect.
    SoftReset(u8),
}

/// Client-originated state messages, each with its own authorization rule.
pub enum ClientMetaMessage {
    /// Recording interval marker; always allowed.
    Interval(u8, u16),
    /// Laser-pointer trail; gated by the laser feature tier.
    LaserTrail(u8, u32),
    /// Pointer telemetry; always allowed.
    MovePointer(u8, u32),
    /// Canvas marker; always allowed.
    Marker(u8, String),
    /// Wholesale replacement of the locked-user list; operators only.
    UserACL(u8, Vec<u8>),
    /// Per-layer access rule change.
    LayerACL(u8, LayerACLMessage),
    /// Atomic replacement of all nine feature tiers; operators only. The nine
    /// codes stand in the fixed field order of `FeatureTiers`.
    FeatureAccessLevels(u8, [u8; 9]),
    /// Default-layer announcement; operators only.
    DefaultLayer(u8, u16),
    /// A message already rejected by an upstream filter; always denied.
    Filtered(u8, Vec<u8>),
}

/// Canvas commands: drawing, layer and annotation lifecycle, and undo. All
/// are denied outright while the sender is locked, individually or globally.
pub enum CommandMessage {
    /// Undo-point marker; always allowed.
    UndoPoint(u8),
    /// Canvas resize; gated by the resize feature tier.
    CanvasResize(u8),
    /// Layer creation; the new layer id's high byte must name the sender
    /// unless the sender is an operator.
    LayerCreate(u8, u16),
    /// Layer attribute change.
    LayerAttributes(u8, u16),
    /// Layer retitle.
    LayerRetitle(u8, u16),
    /// Layer reordering; gated by the edit-any-layer feature tier.
    LayerOrder(u8),
    /// Layer deletion; also drops the layer's access-control entry.
    LayerDelete(u8, u16),
    /// Layer visibility toggle; always allowed.
    LayerVisibility(u8, u16),
    /// Image paste onto a layer.
    PutImage(u8, u16),
    /// Rectangle fill on a layer.
    FillRect(u8, u16),
    /// Pen-up marker; always allowed.
    PenUp(u8),
    /// Annotation creation.
    AnnotationCreate(u8, u16),
    /// Annotation reshape.
    AnnotationReshape(u8, u16),
    /// Annotation edit; records or clears the protect flag.
    AnnotationEdit(u8, AnnotationEditMessage),
    /// Annotation deletion; clears the protect flag.
    AnnotationDelete(u8, u16),
    /// Raw tile write; operators only.
    PutTile(u8),
    /// Canvas background change; gated by the background feature tier.
    CanvasBackground(u8),
    /// Classic freehand dabs on a layer.
    DrawDabsClassic(u8, u16),
    /// Pixel dabs on a layer.
    DrawDabsPixel(u8, u16),
    /// Square pixel dabs on a layer.
    DrawDabsPixelSquare(u8, u16),
    /// Selection move without transform.
    MoveRect(u8, u16),
    /// Undo or redo; gated by the undo feature tier.
    Undo(u8),
}

impl CommandMessage {
    /// The identity of the participant who sent the command.
    pub open spec fn spec_user(&self) -> u8 {
        match *self {
            CommandMessage::UndoPoint(u) => u,
            CommandMessage::CanvasResize(u) => u,
            CommandMessage::LayerCreate(u, _) => u,
            CommandMessage::LayerAttributes(u, _) => u,
            CommandMessage::LayerRetitle(u, _) => u,
            CommandMessage::LayerOrder(u) => u,
            CommandMessage::LayerDelete(u, _) => u,
            CommandMessage::LayerVisibility(u, _) => u,
            CommandMessage::PutImage(u, _) => u,
            CommandMessage::FillRect(u, _) => u,
            CommandMessage::PenUp(u) => u,
            CommandMessage::AnnotationCreate(u, _) => u,
            CommandMessage::AnnotationReshape(u, _) => u,
            CommandMessage::AnnotationEdit(u, _) => u,
            CommandMessage::AnnotationDelete(u, _) => u,
            CommandMessage::PutTile(u) => u,
            CommandMessage::CanvasBackground(u) => u,
            CommandMessage::DrawDabsClassic(u, _) => u,
            CommandMessage::DrawDabsPixel(u, _) => u,
            CommandMessage::DrawDabsPixelSquare(u, _) => u,
            CommandMessage::MoveRect(u, _) => u,
            CommandMessage::Undo(u) => u,
        }
    }

    /// The identity of the participant who sent the command.
    pub fn user(&self) -> (r: u8)
        ensures
            r == self.spec_user(),
    {
        match *self {
            CommandMessage::UndoPoint(u) => u,
            CommandMessage::CanvasResize(u) => u,
            CommandMessage::LayerCreate(u, _) => u,
            CommandMessage::LayerAttributes(u, _) => u,
            CommandMessage::LayerRetitle(u, _) => u,
            CommandMessage::LayerOrder(u) => u,
            CommandMessage::LayerDelete(u, _) => u,
            CommandMessage::LayerVisibility(u, _) => u,
            CommandMessage::PutImage(u, _) => u,
            CommandMessage::FillRect(u, _) => u,
            CommandMessage::PenUp(u) => u,
            CommandMessage::AnnotationCreate(u, _) => u,
            CommandMessage::AnnotationReshape(u, _) => u,
            CommandMessage::AnnotationEdit(u, _) => u,
            CommandMessage::AnnotationDelete(u, _) => u,
            CommandMessage::PutTile(u) => u,
            CommandMessage::CanvasBackground(u) => u,
            CommandMessage::DrawDabsClassic(u, _) => u,
            CommandMessage::DrawDabsPixel(u, _) => u,
            CommandMessage::DrawDabsPixelSquare(u, _) => u,
            CommandMessage::MoveRect(u, _) => u,
            CommandMessage::Undo(u) => u,
        }
    }
}

/// One decoded session message, partitioned by evaluation category.
pub enum Message {
    /// Session-control plumbing.
    Control(ControlMessage),
    /// Server-announced state.
    ServerMeta(ServerMetaMessage),
    /// Client state requests.
    ClientMeta(ClientMetaMessage),
    /// Canvas commands.
    Command(CommandMessage),
}

} // verus!
