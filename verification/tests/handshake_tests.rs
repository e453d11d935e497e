use vhost_user_net::features::{
    CTRL_VQ_MASK, MAC_MASK, OFFERED_FEATURES, PROTOCOL_FEATURES_MASK, PROTOCOL_MQ_MASK,
};
use vhost_user_net::handshake::{BackendReply, BackendRequest, Error, Handshake};
use vhost_user_net::device::{Lifecycle, MacAddr, Net, VhostUserConfig};

/// Drives the handshake against a synthetic backend that answers every
/// fetch with the given masks and completes every other round trip,
/// recording each request the machine asks for.
fn drive(
    h: &mut Handshake,
    backend_features: u64,
    protocol_features: u64,
) -> (Vec<BackendRequest>, Result<(), Error>) {
    let mut reqs: Vec<BackendRequest> = Vec::new();
    while let Some(req) = h.request() {
        reqs.push(req);
        let reply = match req {
            BackendRequest::FetchFeatures => BackendReply::Features(backend_features),
            BackendRequest::FetchProtocolFeatures => {
                BackendReply::ProtocolFeatures(protocol_features)
            }
            _ => BackendReply::Completed,
        };
        if let Err(e) = h.advance(reply) {
            return (reqs, Err(e));
        }
    }
    (reqs, Ok(()))
}

#[test]
fn offered_mask_value() {
    // Checksum offload (guest/host), TSO4/6, ECN, UFO (guest/host), merged
    // receive buffers, notify-on-empty, event-index, version-1, and the
    // protocol-features marker.
    assert_eq!(OFFERED_FEATURES, 0x1_6100_ff83);
}

#[test]
fn full_handshake_request_order() {
    let mut h = Handshake::new(2);
    let backend: u64 = 0xffff_ffff_ffff_ffff;
    let (reqs, r) = drive(&mut h, backend, 0xffff);
    assert_eq!(r, Ok(()));
    assert_eq!(
        reqs,
        vec![
            BackendRequest::ClaimOwnership,
            BackendRequest::FetchFeatures,
            BackendRequest::StoreFeatures(OFFERED_FEATURES),
            BackendRequest::FetchProtocolFeatures,
            BackendRequest::StoreProtocolFeatures(PROTOCOL_MQ_MASK),
            BackendRequest::PrimeVringBase(0),
            BackendRequest::PrimeVringBase(1),
        ]
    );
    let neg = h.outcome().unwrap();
    assert_eq!(neg.avail_features, OFFERED_FEATURES);
    assert_eq!(neg.backend_features, backend);
}

#[test]
fn negotiation_intersects_masks() {
    let mut h = Handshake::new(0);
    // The backend offers the protocol marker and a couple of bits the
    // device model never offers; only the common part survives.
    let backend: u64 = PROTOCOL_FEATURES_MASK | 0x3 | (1 << 40);
    let (reqs, r) = drive(&mut h, backend, PROTOCOL_MQ_MASK);
    assert_eq!(r, Ok(()));
    assert!(reqs.contains(&BackendRequest::StoreFeatures(PROTOCOL_FEATURES_MASK | 0x3)));
    // No data queues: no vring is primed.
    assert!(!reqs.iter().any(|q| matches!(q, BackendRequest::PrimeVringBase(_))));
    let neg = h.outcome().unwrap();
    assert_eq!(neg.avail_features, PROTOCOL_FEATURES_MASK | 0x3);
}

#[test]
fn protocol_features_restricted_to_multiqueue() {
    let mut h = Handshake::new(1);
    let (reqs, r) = drive(&mut h, 0xffff_ffff_ffff_ffff, 0xff);
    assert_eq!(r, Ok(()));
    // Whatever the backend advertised, only the multiqueue capability is
    // written back.
    assert!(reqs.contains(&BackendRequest::StoreProtocolFeatures(PROTOCOL_MQ_MASK)));
}

#[test]
fn backend_without_protocol_features_is_rejected() {
    let mut h = Handshake::new(2);
    let backend: u64 = 0xffff_ffff_ffff_ffff & !PROTOCOL_FEATURES_MASK;
    let (reqs, r) = drive(&mut h, backend, 0xffff);
    assert_eq!(r, Err(Error::VhostUserProtocolNotSupport));
    // The handshake never got to the protocol-features round trips or the
    // vring priming, and yields no negotiated masks.
    assert!(!reqs.contains(&BackendRequest::FetchProtocolFeatures));
    assert!(!reqs.iter().any(|q| matches!(q, BackendRequest::PrimeVringBase(_))));
    assert_eq!(h.outcome(), None);
    assert_eq!(h.request(), None);
}

fn fail_at(failing: BackendRequest) -> Result<(), Error> {
    let mut h = Handshake::new(2);
    while let Some(req) = h.request() {
        let reply = if req == failing {
            BackendReply::Failed
        } else {
            match req {
                BackendRequest::FetchFeatures => {
                    BackendReply::Features(0xffff_ffff_ffff_ffff)
                }
                BackendRequest::FetchProtocolFeatures => BackendReply::ProtocolFeatures(0xffff),
                _ => BackendReply::Completed,
            }
        };
        if let Err(e) = h.advance(reply) {
            assert_eq!(h.outcome(), None);
            return Err(e);
        }
    }
    Ok(())
}

#[test]
fn each_failing_round_trip_has_its_own_error() {
    assert_eq!(fail_at(BackendRequest::ClaimOwnership), Err(Error::VhostUserSetOwner));
    assert_eq!(fail_at(BackendRequest::FetchFeatures), Err(Error::VhostUserGetFeatures));
    assert_eq!(
        fail_at(BackendRequest::StoreFeatures(OFFERED_FEATURES)),
        Err(Error::VhostUserSetFeatures)
    );
    assert_eq!(
        fail_at(BackendRequest::FetchProtocolFeatures),
        Err(Error::VhostUserGetProtocolFeatures)
    );
    assert_eq!(
        fail_at(BackendRequest::StoreProtocolFeatures(PROTOCOL_MQ_MASK)),
        Err(Error::VhostUserSetProtocolFeatures)
    );
    assert_eq!(fail_at(BackendRequest::PrimeVringBase(0)), Err(Error::VhostUserSetVringBase));
    assert_eq!(fail_at(BackendRequest::PrimeVringBase(1)), Err(Error::VhostUserSetVringBase));
}

#[test]
fn end_to_end_construction() {
    // Construct with MAC AA:BB:CC:DD:EE:FF, 2 requested data queues and
    // ring size 256, against a backend that reports protocol features
    // including multiqueue.
    let mut h = Handshake::new(2);
    let backend: u64 = 0xffff_ffff_ffff_ffff;
    let (reqs, r) = drive(&mut h, backend, PROTOCOL_MQ_MASK | 0x30);
    assert_eq!(r, Ok(()));
    // The backend observed exactly two vring-base primes, for data queues
    // 0 and 1, before any activation.
    let primes: Vec<&BackendRequest> = reqs
        .iter()
        .filter(|q| matches!(q, BackendRequest::PrimeVringBase(_)))
        .collect();
    assert_eq!(primes.len(), 2);
    assert_eq!(*primes[0], BackendRequest::PrimeVringBase(0));
    assert_eq!(*primes[1], BackendRequest::PrimeVringBase(1));

    let neg = h.outcome().unwrap();
    let mac = MacAddr { bytes: [0xAA, 0xBB, 0xCC, 0xDD, 0xEE, 0xFF] };
    let cfg = VhostUserConfig { sock: String::from("/run/vhost.sock"), num_queues: 2, queue_size: 256 };
    let d: Net<i32, i32> = Net::new(mac, cfg, neg);
    assert_eq!(d.queue_sizes, vec![256, 256, 256]);
    assert_ne!(d.avail_features & CTRL_VQ_MASK, 0);
    assert_ne!(d.avail_features & MAC_MASK, 0);
    assert_eq!(d.acked_features, PROTOCOL_FEATURES_MASK);
    assert_eq!(d.config_space, vec![0xAA, 0xBB, 0xCC, 0xDD, 0xEE, 0xFF]);
    assert!(matches!(d.lifecycle, Lifecycle::Idle));
    assert!(!d.paused);
}
