use vstd::prelude::*;

verus! {

/// Bit positions of the virtio-net device features the device model offers
/// to the guest, and of the vhost-user protocol-features marker.
pub const VIRTIO_NET_F_CSUM: u64 = 0;
pub const VIRTIO_NET_F_GUEST_CSUM: u64 = 1;
pub const VIRTIO_NET_F_MAC: u64 = 5;
pub const VIRTIO_NET_F_GUEST_TSO4: u64 = 7;
pub const VIRTIO_NET_F_GUEST_TSO6: u64 = 8;
pub const VIRTIO_NET_F_GUEST_ECN: u64 = 9;
pub const VIRTIO_NET_F_GUEST_UFO: u64 = 10;
pub const VIRTIO_NET_F_HOST_TSO4: u64 = 11;
pub const VIRTIO_NET_F_HOST_TSO6: u64 = 12;
pub const VIRTIO_NET_F_HOST_ECN: u64 = 13;
pub const VIRTIO_NET_F_HOST_UFO: u64 = 14;
pub const VIRTIO_NET_F_MRG_RXBUF: u64 = 15;
pub const VIRTIO_NET_F_CTRL_VQ: u64 = 17;
pub const VIRTIO_F_NOTIFY_ON_EMPTY: u64 = 24;
pub const VIRTIO_RING_F_EVENT_IDX: u64 = 29;
pub const VIRTIO_F_VERSION_1: u64 = 32;

/// Marker bit by which a vhost-user backend advertises support for the
/// protocol-features extension (required for multiqueue negotiation).
pub const VHOST_USER_F_PROTOCOL_FEATURES: u64 = 30;

/// Bit position of the multiqueue capability inside the separate
/// vhost-user protocol-features namespace.
pub const VHOST_USER_PROTOCOL_F_MQ: u64 = 0;

/// Mask form of the protocol-features marker bit (bit 30).
pub const PROTOCOL_FEATURES_MASK: u64 = 0x4000_0000;

/// Mask form of the control-queue feature bit (bit 17).
pub const CTRL_VQ_MASK: u64 = 0x2_0000;

/// Mask form of the MAC-address feature bit (bit 5).
pub const MAC_MASK: u64 = 0x20;

/// Mask form of the multiqueue capability in the protocol-features
/// namespace (bit 0).
pub const PROTOCOL_MQ_MASK: u64 = 0x1;

/// Every device and ring capability the device model offers to a backend,
/// plus the protocol-features marker.
pub const OFFERED_FEATURES: u64 = (1u64 << VIRTIO_NET_F_CSUM)
    | (1u64 << VIRTIO_NET_F_GUEST_CSUM)
    | (1u64 << VIRTIO_NET_F_GUEST_TSO4)
    | (1u64 << VIRTIO_NET_F_GUEST_TSO6)
    | (1u64 << VIRTIO_NET_F_GUEST_ECN)
    | (1u64 << VIRTIO_NET_F_GUEST_UFO)
    | (1u64 << VIRTIO_NET_F_HOST_TSO4)
    | (1u64 << VIRTIO_NET_F_HOST_TSO6)
    | (1u64 << VIRTIO_NET_F_HOST_ECN)
    | (1u64 << VIRTIO_NET_F_HOST_UFO)
    | (1u64 << VIRTIO_NET_F_MRG_RXBUF)
    | (1u64 << VIRTIO_F_NOTIFY_ON_EMPTY)
    | (1u64 << VIRTIO_F_VERSION_1)
    | (1u64 << VIRTIO_RING_F_EVENT_IDX)
    | (1u64 << VHOST_USER_F_PROTOCOL_FEATURES);

/// The literal mask constants match their bit positions, and the offered
/// mask carries the protocol-features marker.
pub proof fn lemma_masks_match_positions()
    ensures
        PROTOCOL_FEATURES_MASK == 1u64 << VHOST_USER_F_PROTOCOL_FEATURES,
        CTRL_VQ_MASK == 1u64 << VIRTIO_NET_F_CTRL_VQ,
        MAC_MASK == 1u64 << VIRTIO_NET_F_MAC,
        PROTOCOL_MQ_MASK == 1u64 << VHOST_USER_PROTOCOL_F_MQ,
        OFFERED_FEATURES & PROTOCOL_FEATURES_MASK != 0,
{
    assert(0x4000_0000u64 == 1u64 << 30u64) by (bit_vector);
    assert(0x2_0000u64 == 1u64 << 17u64) by (bit_vector);
    assert(0x20u64 == 1u64 << 5u64) by (bit_vector);
    assert(0x1u64 == 1u64 << 0u64) by (bit_vector);
    assert(OFFERED_FEATURES & PROTOCOL_FEATURES_MASK != 0) by (bit_vector);
}

/// A feature mask `a` claims no capability outside the mask `b`.
pub open spec fn mask_within(a: u64, b: u64) -> bool {
    a & !b == 0
}

/// Folding any value masked to `avail` into an acknowledgment mask that is
/// within `avail` keeps it within `avail`.
pub proof fn lemma_masked_or_stays_within(acked: u64, avail: u64, v: u64)
    requires
        mask_within(acked, avail),
    ensures
        mask_within(acked | (v & avail), avail),
{
    assert((acked | (v & avail)) & !avail == 0) by (bit_vector)
        requires
            acked & !avail == 0,
    ;
}

/// Intersecting with a mask that lacks a bit yields a mask that lacks it too.
pub proof fn lemma_intersection_drops_missing_bit(offered: u64, backend: u64, bit: u64)
    requires
        backend & bit == 0,
    ensures
        (offered & backend) & bit == 0,
{
    assert((offered & backend) & bit == 0) by (bit_vector)
        requires
            backend & bit == 0,
    ;
}

/// A mask that carries the protocol-features marker keeps it after any
/// further bits are folded in.
pub proof fn lemma_protocol_bit_within(avail: u64, extra1: u64, extra2: u64)
    requires
        avail & PROTOCOL_FEATURES_MASK != 0,
    ensures
        mask_within(PROTOCOL_FEATURES_MASK, (avail | extra1) | extra2),
{
    assert(0x4000_0000u64 & !((avail | extra1) | extra2) == 0) by (bit_vector)
        requires
            avail & 0x4000_0000u64 != 0,
    ;
}

} // verus!
