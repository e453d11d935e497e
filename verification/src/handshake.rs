use vstd::prelude::*;
use crate::features::{OFFERED_FEATURES, PROTOCOL_FEATURES_MASK, PROTOCOL_MQ_MASK,
    lemma_intersection_drops_missing_bit};

verus! {

/// Errors of device construction. Each handshake round trip that can be
/// refused by the backend has its own variant; `VhostUserProtocolNotSupport`
/// is the fatal case of a backend that lacks the protocol-features extension.
#[derive(Clone, Copy, Debug, PartialEq, Eq, Structural)]
pub enum Error {
    /// Connecting to the backend's socket failed.
    VhostUserCreateMaster,
    /// The claim-ownership round trip failed.
    VhostUserSetOwner,
    /// Fetching the backend's feature mask failed.
    VhostUserGetFeatures,
    /// Writing the negotiated feature mask back failed.
    VhostUserSetFeatures,
    /// Fetching the backend's protocol-feature mask failed.
    VhostUserGetProtocolFeatures,
    /// Writing the restricted protocol-feature mask back failed.
    VhostUserSetProtocolFeatures,
    /// The backend does not support the protocol-features extension.
    VhostUserProtocolNotSupport,
    /// Priming a vring base index failed.
    VhostUserSetVringBase,
}

/// One blocking round trip the caller must perform on the backend connection.
#[derive(Clone, Copy, Debug, PartialEq, Eq, Structural)]
pub enum BackendRequest {
    /// Claim exclusive ownership of the connection.
    ClaimOwnership,
    /// Fetch the backend's feature mask.
    FetchFeatures,
    /// Write the negotiated feature mask back to the backend.
    StoreFeatures(u64),
    /// Fetch the backend's protocol-feature mask.
    FetchProtocolFeatures,
    /// Write the restricted protocol-feature mask back to the backend.
    StoreProtocolFeatures(u64),
    /// Set the vring base index of the given data queue to zero.
    PrimeVringBase(usize),
}

/// What the backend answered to the last request.
#[derive(Clone, Copy, Debug, PartialEq, Eq, Structural)]
pub enum BackendReply {
    /// The request carried no payload and completed.
    Completed,
    /// The backend's feature mask.
    Features(u64),
    /// The backend's protocol-feature mask.
    ProtocolFeatures(u64),
    /// The round trip failed.
    Failed,
}

/// Progress of the construction-time handshake.
#[derive(Clone, Copy, Debug, PartialEq, Eq, Structural)]
pub enum HandshakeState {
    ClaimingOwnership,
    FetchingFeatures,
    StoringFeatures { avail: u64, backend: u64 },
    FetchingProtocolFeatures { avail: u64, backend: u64 },
    StoringProtocolFeatures { avail: u64, backend: u64, protocol: u64 },
    PrimingVrings { avail: u64, backend: u64, next_queue: usize },
    Complete { avail: u64, backend: u64 },
    Failed,
}

/// The feature masks a completed handshake agreed on.
#[derive(Clone, Copy, Debug, PartialEq, Eq, Structural)]
pub struct Negotiated {
    pub avail_features: u64,
    pub backend_features: u64,
}

impl Negotiated {
    /// What every handshake-produced value satisfies: the negotiated mask is
    /// the intersection of both sides' masks and carries the
    /// protocol-features marker.
    pub open spec fn valid(self) -> bool {
        &&& self.avail_features == OFFERED_FEATURES & self.backend_features
        &&& self.avail_features & PROTOCOL_FEATURES_MASK != 0
    }
}

/// Which replies a state can take: the reply kind is fixed by the request
/// the state asks for, and any request may fail.
pub open spec fn expected_reply(s: HandshakeState, r: BackendReply) -> bool {
    ||| r is Failed
    ||| match s {
        HandshakeState::ClaimingOwnership => r is Completed,
        HandshakeState::FetchingFeatures => r is Features,
        HandshakeState::StoringFeatures { .. } => r is Completed,
        HandshakeState::FetchingProtocolFeatures { .. } => r is ProtocolFeatures,
        HandshakeState::StoringProtocolFeatures { .. } => r is Completed,
        HandshakeState::PrimingVrings { .. } => r is Completed,
        HandshakeState::Complete { .. } => false,
        HandshakeState::Failed => false,
    }
}

/// The state after taking `r` in state `s`, for a device with `num_queues`
/// data queues.
pub open spec fn step_state(s: HandshakeState, num_queues: usize, r: BackendReply) -> HandshakeState {
    if r is Failed {
        HandshakeState::Failed
    } else {
        match s {
            HandshakeState::ClaimingOwnership => HandshakeState::FetchingFeatures,
            HandshakeState::FetchingFeatures => match r {
                BackendReply::Features(b) => HandshakeState::StoringFeatures {
                    avail: OFFERED_FEATURES & b,
                    backend: b,
                },
                _ => HandshakeState::Failed,
            },
            HandshakeState::StoringFeatures { avail, backend } => {
                if avail & PROTOCOL_FEATURES_MASK != 0 {
                    HandshakeState::FetchingProtocolFeatures { avail, backend }
                } else {
                    HandshakeState::Failed
                }
            },
            HandshakeState::FetchingProtocolFeatures { avail, backend } => match r {
                BackendReply::ProtocolFeatures(p) => HandshakeState::StoringProtocolFeatures {
                    avail,
                    backend,
                    protocol: p & PROTOCOL_MQ_MASK,
                },
                _ => HandshakeState::Failed,
            },
            HandshakeState::StoringProtocolFeatures { avail, backend, .. } => {
                if num_queues > 0 {
                    HandshakeState::PrimingVrings { avail, backend, next_queue: 0 }
                } else {
                    HandshakeState::Complete { avail, backend }
                }
            },
            HandshakeState::PrimingVrings { avail, backend, next_queue } => {
                if next_queue + 1 < num_queues {
                    HandshakeState::PrimingVrings {
                        avail,
                        backend,
                        next_queue: (next_queue + 1) as usize,
                    }
                } else {
                    HandshakeState::Complete { avail, backend }
                }
            },
            HandshakeState::Complete { .. } => s,
            HandshakeState::Failed => s,
        }
    }
}

/// The error, if any, that taking `r` in state `s` reports.
pub open spec fn step_error(s: HandshakeState, r: BackendReply) -> Option<Error> {
    if r is Failed {
        match s {
            HandshakeState::ClaimingOwnership => Some(Error::VhostUserSetOwner),
            HandshakeState::FetchingFeatures => Some(Error::VhostUserGetFeatures),
            HandshakeState::StoringFeatures { .. } => Some(Error::VhostUserSetFeatures),
            HandshakeState::FetchingProtocolFeatures { .. } => Some(
                Error::VhostUserGetProtocolFeatures,
            ),
            HandshakeState::StoringProtocolFeatures { .. } => Some(
                Error::VhostUserSetProtocolFeatures,
            ),
            HandshakeState::PrimingVrings { .. } => Some(Error::VhostUserSetVringBase),
            _ => Some(Error::VhostUserSetOwner),
        }
    } else {
        match s {
            HandshakeState::StoringFeatures { avail, .. } => {
                if avail & PROTOCOL_FEATURES_MASK == 0 {
                    Some(Error::VhostUserProtocolNotSupport)
                } else {
                    None
                }
            },
            _ => None,
        }
    }
}

/// Driver of the construction-time handshake with the backend. The caller
/// performs each request it asks for and feeds the reply back; the machine
/// decides every mask that is written to the backend and in which order the
/// round trips happen.
pub struct Handshake {
    pub num_queues: usize,
    pub state: HandshakeState,
}

impl Handshake {
    /// The masks carried along are the intersection the machine computed, and
    /// a vring is only primed for an existing data queue.
    pub open spec fn wf(self) -> bool {
        match self.state {
            HandshakeState::StoringFeatures { avail, backend } => avail == OFFERED_FEATURES
                & backend,
            HandshakeState::FetchingProtocolFeatures { avail, backend } => avail
                == OFFERED_FEATURES & backend && avail & PROTOCOL_FEATURES_MASK != 0,
            HandshakeState::StoringProtocolFeatures { avail, backend, .. } => avail
                == OFFERED_FEATURES & backend && avail & PROTOCOL_FEATURES_MASK != 0,
            HandshakeState::PrimingVrings { avail, backend, next_queue } => avail
                == OFFERED_FEATURES & backend && avail & PROTOCOL_FEATURES_MASK != 0 && next_queue
                < self.num_queues,
            HandshakeState::Complete { avail, backend } => avail == OFFERED_FEATURES & backend
                && avail & PROTOCOL_FEATURES_MASK != 0,
            _ => true,
        }
    }

    pub open spec fn in_progress(self) -> bool {
        !(self.state is Complete) && !(self.state is Failed)
    }

    /// The request the caller must perform next, `None` once the handshake
    /// has completed or failed.
    pub open spec fn request_spec(self) -> Option<BackendRequest> {
        match self.state {
            HandshakeState::ClaimingOwnership => Some(BackendRequest::ClaimOwnership),
            HandshakeState::FetchingFeatures => Some(BackendRequest::FetchFeatures),
            HandshakeState::StoringFeatures { avail, .. } => Some(
                BackendRequest::StoreFeatures(avail),
            ),
            HandshakeState::FetchingProtocolFeatures { .. } => Some(
                BackendRequest::FetchProtocolFeatures,
            ),
            HandshakeState::StoringProtocolFeatures { protocol, .. } => Some(
                BackendRequest::StoreProtocolFeatures(protocol),
            ),
            HandshakeState::PrimingVrings { next_queue, .. } => Some(
                BackendRequest::PrimeVringBase(next_queue),
            ),
            HandshakeState::Complete { .. } => None,
            HandshakeState::Failed => None,
        }
    }

    /// Start the handshake for a device with `num_queues` data queues.
    pub fn new(num_queues: usize) -> (h: Handshake)
        ensures
            h.state == HandshakeState::ClaimingOwnership,
            h.num_queues == num_queues,
            h.wf(),
    {
        Handshake { num_queues, state: HandshakeState::ClaimingOwnership }
    }

    pub fn request(&self) -> (r: Option<BackendRequest>)
        ensures
            r == self.request_spec(),
    {
        match self.state {
            HandshakeState::ClaimingOwnership => Some(BackendRequest::ClaimOwnership),
            HandshakeState::FetchingFeatures => Some(BackendRequest::FetchFeatures),
            HandshakeState::StoringFeatures { avail, .. } => Some(
                BackendRequest::StoreFeatures(avail),
            ),
            HandshakeState::FetchingProtocolFeatures { .. } => Some(
                BackendRequest::FetchProtocolFeatures,
            ),
            HandshakeState::StoringProtocolFeatures { protocol, .. } => Some(
                BackendRequest::StoreProtocolFeatures(protocol),
            ),
            HandshakeState::PrimingVrings { next_queue, .. } => Some(
                BackendRequest::PrimeVringBase(next_queue),
            ),
            HandshakeState::Complete { .. } => None,
            HandshakeState::Failed => None,
        }
    }

    /// Feed the backend's reply to the pending request into the machine.
    /// Any step that fails, and a negotiated mask without the
    /// protocol-features marker, abort the handshake for good.
    pub fn advance(&mut self, reply: BackendReply) -> (r: Result<(), Error>)
        requires
            old(self).wf(),
            old(self).in_progress(),
            expected_reply(old(self).state, reply),
        ensures
            final(self).num_queues == old(self).num_queues,
            final(self).state == step_state(old(self).state, old(self).num_queues, reply),
            final(self).wf(),
            r is Ok <==> step_error(old(self).state, reply) is None,
            (r matches Err(e) ==> step_error(old(self).state, reply) == Some(e)),
    {
        if matches!(reply, BackendReply::Failed) {
            let e = match self.state {
                HandshakeState::ClaimingOwnership => Error::VhostUserSetOwner,
                HandshakeState::FetchingFeatures => Error::VhostUserGetFeatures,
                HandshakeState::StoringFeatures { .. } => Error::VhostUserSetFeatures,
                HandshakeState::FetchingProtocolFeatures { .. } => Error::VhostUserGetProtocolFeatures,
                HandshakeState::StoringProtocolFeatures { .. } => Error::VhostUserSetProtocolFeatures,
                HandshakeState::PrimingVrings { .. } => Error::VhostUserSetVringBase,
                _ => Error::VhostUserSetOwner,
            };
            self.state = HandshakeState::Failed;
            return Err(e);
        }
        match self.state {
            HandshakeState::ClaimingOwnership => {
                self.state = HandshakeState::FetchingFeatures;
                Ok(())
            },
            HandshakeState::FetchingFeatures => {
                match reply {
                    BackendReply::Features(b) => {
                        self.state = HandshakeState::StoringFeatures {
                            avail: OFFERED_FEATURES & b,
                            backend: b,
                        };
                        Ok(())
                    },
                    _ => {
                        self.state = HandshakeState::Failed;
                        Ok(())
                    },
                }
            },
            HandshakeState::StoringFeatures { avail, backend } => {
                if avail & PROTOCOL_FEATURES_MASK != 0 {
                    self.state = HandshakeState::FetchingProtocolFeatures { avail, backend };
                    Ok(())
                } else {
                    self.state = HandshakeState::Failed;
                    Err(Error::VhostUserProtocolNotSupport)
                }
            },
            HandshakeState::FetchingProtocolFeatures { avail, backend } => {
                match reply {
                    BackendReply::ProtocolFeatures(p) => {
                        self.state = HandshakeState::StoringProtocolFeatures {
                            avail,
                            backend,
                            protocol: p & PROTOCOL_MQ_MASK,
                        };
                        Ok(())
                    },
                    _ => {
                        self.state = HandshakeState::Failed;
                        Ok(())
                    },
                }
            },
            HandshakeState::StoringProtocolFeatures { avail, backend, .. } => {
                if self.num_queues > 0 {
                    self.state = HandshakeState::PrimingVrings { avail, backend, next_queue: 0 };
                } else {
                    self.state = HandshakeState::Complete { avail, backend };
                }
                Ok(())
            },
            HandshakeState::PrimingVrings { avail, backend, next_queue } => {
                if next_queue + 1 < self.num_queues {
                    self.state = HandshakeState::PrimingVrings {
                        avail,
                        backend,
                        next_queue: next_queue + 1,
                    };
                } else {
                    self.state = HandshakeState::Complete { avail, backend };
                }
                Ok(())
            },
            HandshakeState::Complete { .. } => Ok(()),
            HandshakeState::Failed => Ok(()),
        }
    }

    /// The negotiated masks, once the handshake has completed.
    pub fn outcome(&self) -> (r: Option<Negotiated>)
        ensures
            (match self.state {
                HandshakeState::Complete { avail, backend } => r == Some(
                    Negotiated { avail_features: avail, backend_features: backend },
                ),
                _ => r is None,
            }),
            self.wf() && r is Some ==> (r matches Some(n) && n.valid()),
    {
        match self.state {
            HandshakeState::Complete { avail, backend } => Some(
                Negotiated { avail_features: avail, backend_features: backend },
            ),
            _ => None,
        }
    }
}

/// A backend that does not advertise the protocol-features marker cannot
/// complete the handshake: once the negotiated mask has been stored, the
/// next step fails the whole construction with
/// `VhostUserProtocolNotSupport`, whatever the backend answered.
pub proof fn lemma_protocol_feature_required(
    backend: u64,
    num_queues: usize,
    reply: BackendReply,
)
    requires
        backend & PROTOCOL_FEATURES_MASK == 0,
    ensures
        step_state(
            HandshakeState::StoringFeatures { avail: OFFERED_FEATURES & backend, backend },
            num_queues,
            reply,
        ) is Failed,
        !(reply is Failed) ==> step_error(
            HandshakeState::StoringFeatures { avail: OFFERED_FEATURES & backend, backend },
            reply,
        ) == Some(Error::VhostUserProtocolNotSupport),
{
    lemma_intersection_drops_missing_bit(OFFERED_FEATURES, backend, PROTOCOL_FEATURES_MASK);
}

} // verus!
