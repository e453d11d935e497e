use vstd::prelude::*;
use vstd::pervasive::VecAdditionalExecFns;
use crate::features::{CTRL_VQ_MASK, MAC_MASK, PROTOCOL_FEATURES_MASK, mask_within,
    lemma_masked_or_stays_within, lemma_protocol_bit_within};
use crate::handshake::Negotiated;

verus! {

/// Virtio device type identifier of a network device.
pub const VIRTIO_DEVICE_TYPE_NET: u32 = 1;

/// Number of bytes in a MAC address.
pub const MAC_ADDR_LEN: usize = 6;

/// A MAC address, as the six bytes the guest sees in config space.
#[derive(Clone, Copy, Debug)]
pub struct MacAddr {
    pub bytes: [u8; 6],
}

/// What the caller hands to construction: the backend's socket path, the
/// number of requested data queues, and the ring size of every queue.
pub struct VhostUserConfig {
    pub sock: String,
    pub num_queues: usize,
    pub queue_size: u16,
}

/// Errors of activation.
#[derive(Clone, Copy, Debug, PartialEq, Eq, Structural)]
pub enum ActivateError {
    /// Queue-count mismatch, or a resource-creation failure on the caller's
    /// side.
    BadActivate,
    /// The backend rejected the queue programming.
    VhostUserNetSetup,
}

/// Whether the device is idle or activated. While activated it retains the
/// notification descriptors and the interrupt handle it must hand back on
/// reset, and remembers whether the control queue got its own worker.
pub enum Lifecycle<E, I> {
    Idle,
    Activated { queue_evts: Vec<E>, interrupt_cb: I, ctrl_thread: bool },
}

/// What a successful activation tells the caller to do: which queues go to
/// the backend-setup routine, which pair a dedicated control-queue worker
/// takes, and the feature mask the backend's rings are programmed with.
pub struct ActivatePlan<Q, E> {
    /// The detached control queue and its notification descriptor, when the
    /// control queue runs in its own worker.
    pub ctrl: Option<(Q, E)>,
    /// The data queues to hand to the backend-setup routine.
    pub data_queues: Vec<Q>,
    /// Their notification descriptors.
    pub data_queue_evts: Vec<E>,
    /// The mask to program the backend's rings with.
    pub effective_features: u64,
}

/// What the first half of a reset tells the caller to do before it issues
/// the backend-side queue resets.
#[derive(Clone, Copy, Debug, PartialEq, Eq, Structural)]
pub struct ResetPrep {
    /// Wake the workers out of their pause wait first.
    pub resume_workers: bool,
    /// How many backend queue resets to issue.
    pub queues_to_reset: usize,
}

/// The device: negotiated feature masks, virtio config space, queue sizes,
/// the shared pause flag, and the lifecycle state. The type is generic over
/// the notification-descriptor and interrupt-handle values it retains while
/// activated: it only ever stores and returns them.
pub struct Net<E, I> {
    pub avail_features: u64,
    pub acked_features: u64,
    pub backend_features: u64,
    pub config_space: Vec<u8>,
    pub queue_sizes: Vec<u16>,
    pub paused: bool,
    pub lifecycle: Lifecycle<E, I>,
}

/// The guest acknowledges features one 32-bit page at a time; this is the
/// 64-bit value a page and its bits stand for.
pub open spec fn page_value(page: u32, value: u32) -> u64 {
    if page == 0 {
        value as u64
    } else if page == 1 {
        (value as u64) << 32u64
    } else {
        0
    }
}

/// The 32-bit page of a 64-bit feature mask the guest asked for.
pub open spec fn feature_page(avail: u64, page: u32) -> u32 {
    if page == 0 {
        (avail & 0xffff_ffffu64) as u32
    } else if page == 1 {
        (avail >> 32u64) as u32
    } else {
        0
    }
}

/// Build the virtio-net config space from the MAC address and mark the
/// MAC field as populated in the feature mask.
pub fn build_net_config_space(mac_addr: MacAddr, avail_features: &mut u64) -> (cfg: Vec<u8>)
    ensures
        cfg@ == mac_addr.bytes@,
        *final(avail_features) == *old(avail_features) | MAC_MASK,
{
    let mut cfg: Vec<u8> = Vec::new();
    let mut i: usize = 0;
    while i < MAC_ADDR_LEN
        invariant
            i <= MAC_ADDR_LEN,
            cfg@ == mac_addr.bytes@.subrange(0, i as int),
        decreases MAC_ADDR_LEN - i,
    {
        cfg.push(mac_addr.bytes[i]);
        proof {
            assert(cfg@ =~= mac_addr.bytes@.subrange(0, i + 1));
        }
        i = i + 1;
    }
    proof {
        assert(cfg@ =~= mac_addr.bytes@);
    }
    *avail_features = *avail_features | MAC_MASK;
    cfg
}

impl<E, I> Net<E, I> {
    /// The device's standing invariant: the guest never gets a feature
    /// acknowledged that was not offered, and the control queue makes the
    /// queue list non-empty.
    pub open spec fn wf(self) -> bool {
        &&& mask_within(self.acked_features, self.avail_features)
        &&& self.queue_sizes@.len() >= 1
    }

    pub open spec fn is_activated(self) -> bool {
        self.lifecycle is Activated
    }

    /// How many worker threads serve the device in its current state.
    pub open spec fn worker_threads(self) -> int {
        match self.lifecycle {
            Lifecycle::Idle => 0,
            Lifecycle::Activated { ctrl_thread, .. } => if ctrl_thread {
                2
            } else {
                1
            },
        }
    }

    /// The control queue gets its own worker exactly when the guest
    /// acknowledged the control-queue feature and the trailing entry of an
    /// odd queue list is the control queue.
    pub open spec fn ctrl_split_decision(self, queue_count: int) -> bool {
        self.acked_features & CTRL_VQ_MASK != 0 && queue_count % 2 == 1
    }

    /// The device as activation leaves it.
    pub open spec fn with_activated(self, saved_evts: Vec<E>, interrupt_cb: I, ctrl_thread: bool) -> Net<E, I> {
        Net {
            avail_features: self.avail_features,
            acked_features: self.acked_features,
            backend_features: self.backend_features,
            config_space: self.config_space,
            queue_sizes: self.queue_sizes,
            paused: self.paused,
            lifecycle: Lifecycle::Activated { queue_evts: saved_evts, interrupt_cb, ctrl_thread },
        }
    }

    /// The device with the pause flag set as given.
    pub open spec fn with_paused(self, paused: bool) -> Net<E, I> {
        Net {
            avail_features: self.avail_features,
            acked_features: self.acked_features,
            backend_features: self.backend_features,
            config_space: self.config_space,
            queue_sizes: self.queue_sizes,
            paused,
            lifecycle: self.lifecycle,
        }
    }

    /// The device after the first half of a reset: an activated device is
    /// taken out of the paused state before anything else happens.
    pub open spec fn after_reset_prepare(self) -> Net<E, I> {
        self.with_paused(self.paused && !self.is_activated())
    }

    /// What the first half of a reset tells the caller: wake the workers
    /// exactly when the device was activated and paused, then issue one
    /// backend reset per queue.
    pub open spec fn reset_prep_decision(self) -> ResetPrep {
        ResetPrep {
            resume_workers: self.is_activated() && self.paused,
            queues_to_reset: self.queue_sizes@.len() as usize,
        }
    }

    /// The device after the second half of a reset: idle again when the
    /// backend-side reset went through, untouched otherwise.
    pub open spec fn after_reset_commit(self, backend_ok: bool) -> Net<E, I> {
        if backend_ok && self.lifecycle is Activated {
            Net {
                avail_features: self.avail_features,
                acked_features: self.acked_features,
                backend_features: self.backend_features,
                config_space: self.config_space,
                queue_sizes: self.queue_sizes,
                paused: self.paused,
                lifecycle: Lifecycle::Idle,
            }
        } else {
            self
        }
    }

    /// What the second half of a reset returns: the retained interrupt handle
    /// and notification descriptors, exactly when the backend-side reset went
    /// through on an activated device.
    pub open spec fn reset_commit_result(self, backend_ok: bool) -> Option<(I, Vec<E>)> {
        match self.lifecycle {
            Lifecycle::Activated { queue_evts, interrupt_cb, .. } => if backend_ok {
                Some((interrupt_cb, queue_evts))
            } else {
                None
            },
            Lifecycle::Idle => None,
        }
    }

    /// Create the device from a completed handshake: the control-queue
    /// feature is always offered on top of what was negotiated, the config
    /// space is derived from the MAC address, and one control queue joins
    /// the requested data queues.
    pub fn new(mac_addr: MacAddr, vu_cfg: VhostUserConfig, negotiated: Negotiated) -> (n: Net<E, I>)
        requires
            vu_cfg.num_queues < usize::MAX,
        ensures
            n.avail_features == (negotiated.avail_features | CTRL_VQ_MASK) | MAC_MASK,
            n.acked_features == PROTOCOL_FEATURES_MASK,
            n.backend_features == negotiated.backend_features,
            n.config_space@ == mac_addr.bytes@,
            n.queue_sizes@.len() == vu_cfg.num_queues + 1,
            (forall|i: int| 0 <= i < n.queue_sizes@.len() ==> n.queue_sizes@[i] == vu_cfg.queue_size),
            n.lifecycle is Idle,
            !n.paused,
            negotiated.valid() ==> n.wf(),
    {
        let mut avail: u64 = negotiated.avail_features | CTRL_VQ_MASK;
        let config_space = build_net_config_space(mac_addr, &mut avail);
        let queue_num: usize = vu_cfg.num_queues + 1;
        let mut queue_sizes: Vec<u16> = Vec::new();
        while queue_sizes.len() < queue_num
            invariant
                queue_sizes@.len() <= queue_num,
                forall|i: int| 0 <= i < queue_sizes@.len() ==> queue_sizes@[i] == vu_cfg.queue_size,
            decreases queue_num - queue_sizes@.len(),
        {
            queue_sizes.push(vu_cfg.queue_size);
        }
        proof {
            if negotiated.valid() {
                lemma_protocol_bit_within(negotiated.avail_features, CTRL_VQ_MASK, MAC_MASK);
            }
        }
        Net {
            avail_features: avail,
            acked_features: PROTOCOL_FEATURES_MASK,
            backend_features: negotiated.backend_features,
            config_space,
            queue_sizes,
            paused: false,
            lifecycle: Lifecycle::Idle,
        }
    }

    /// The virtio device type the guest sees.
    pub fn device_type(&self) -> (t: u32)
        ensures
            t == VIRTIO_DEVICE_TYPE_NET,
    {
        VIRTIO_DEVICE_TYPE_NET
    }

    /// The ring size of every virtqueue, control queue included.
    pub fn queue_max_sizes(&self) -> (r: &[u16])
        ensures
            r@ == self.queue_sizes@,
    {
        self.queue_sizes.as_slice()
    }

    /// One 32-bit page of the offered feature mask; an unknown page reads
    /// as zero.
    pub fn features(&self, page: u32) -> (r: u32)
        ensures
            r == feature_page(self.avail_features, page),
    {
        match page {
            0u32 => (self.avail_features & 0xffff_ffffu64) as u32,
            1u32 => (self.avail_features >> 32u64) as u32,
            _ => 0u32,
        }
    }

    /// Fold a guest acknowledgment into the acknowledged mask. Bits the
    /// device never offered are dropped, never recorded.
    pub fn ack_features(&mut self, page: u32, value: u32)
        ensures
            final(self).acked_features == old(self).acked_features | (page_value(page, value)
                & old(self).avail_features),
            *final(self) == old(self).with_acked(final(self).acked_features),
            old(self).wf() ==> final(self).wf(),
    {
        let v0: u64 = match page {
            0u32 => value as u64,
            1u32 => (value as u64) << 32u64,
            _ => 0u64,
        };
        // Check if the guest is acknowledging a feature we did not claim to have.
        let unrequested_features: u64 = v0 & !self.avail_features;
        let v: u64 = v0 & !unrequested_features;
        proof {
            let avail: u64 = self.avail_features;
            assert(v0 & !(v0 & !avail) == v0 & avail) by (bit_vector);
            if old(self).wf() {
                lemma_masked_or_stays_within(old(self).acked_features, avail, v0);
            }
        }
        self.acked_features = self.acked_features | v;
    }

    /// The device with the acknowledged mask set as given.
    pub open spec fn with_acked(self, acked: u64) -> Net<E, I> {
        Net {
            avail_features: self.avail_features,
            acked_features: acked,
            backend_features: self.backend_features,
            config_space: self.config_space,
            queue_sizes: self.queue_sizes,
            paused: self.paused,
            lifecycle: self.lifecycle,
        }
    }

    /// Read from config space. An out-of-range offset reads as nothing, a
    /// length past the end is cut at the end; the guest is never faulted.
    pub fn read_config(&self, offset: u64, length: usize) -> (data: Vec<u8>)
        ensures
            offset >= self.config_space@.len() ==> data@ == Seq::<u8>::empty(),
            offset < self.config_space@.len() ==> ({
                let end = if offset + length <= self.config_space@.len() {
                    offset + length
                } else {
                    self.config_space@.len() as int
                };
                data@ == self.config_space@.subrange(offset as int, end)
            }),
    {
        let config_len: usize = self.config_space.len();
        if offset >= config_len as u64 {
            return Vec::new();
        }
        let off: usize = offset as usize;
        let remain: usize = config_len - off;
        let take: usize = if length < remain {
            length
        } else {
            remain
        };
        let mut data: Vec<u8> = Vec::new();
        let mut i: usize = 0;
        while i < take
            invariant
                i <= take,
                off + take <= config_len,
                config_len == self.config_space@.len(),
                data@ == self.config_space@.subrange(off as int, off + i),
            decreases take - i,
        {
            data.push(self.config_space[off + i]);
            proof {
                assert(data@ =~= self.config_space@.subrange(off as int, off + i + 1));
            }
            i = i + 1;
        }
        data
    }

    /// Write to config space. A write that would run past the end is
    /// rejected in full; otherwise the bytes land at the given offset and
    /// the rest of the buffer keeps its contents.
    pub fn write_config(&mut self, offset: u64, data: &Vec<u8>)
        ensures
            offset + data@.len() > old(self).config_space@.len() ==> *final(self) == *old(self),
            offset + data@.len() <= old(self).config_space@.len() ==> ({
                &&& final(self).config_space@ == old(self).config_space@.subrange(0, offset as int)
                    + data@ + old(self).config_space@.subrange(
                    offset + data@.len(),
                    old(self).config_space@.len() as int,
                )
                &&& *final(self) == old(self).with_config(final(self).config_space)
            }),
    {
        let config_len: usize = self.config_space.len();
        let data_len: usize = data.len();
        if offset > config_len as u64 || data_len as u64 > config_len as u64 - offset {
            return;
        }
        let off: usize = offset as usize;
        let mut i: usize = 0;
        while i < data_len
            invariant
                i <= data_len,
                off + data_len <= config_len,
                config_len == old(self).config_space@.len(),
                self.config_space@.len() == config_len,
                data@.len() == data_len,
                *self == old(self).with_config(self.config_space),
                forall|k: int| 0 <= k < off ==> self.config_space@[k] == old(self).config_space@[k],
                forall|k: int| 0 <= k < i ==> self.config_space@[off + k] == data@[k],
                forall|k: int|
                    off + i <= k < config_len ==> self.config_space@[k] == old(
                        self,
                    ).config_space@[k],
            decreases data_len - i,
        {
            self.config_space.set(off + i, data[i]);
            i = i + 1;
        }
        proof {
            assert(self.config_space@ =~= old(self).config_space@.subrange(0, off as int) + data@
                + old(self).config_space@.subrange(off + data_len, config_len as int));
        }
    }

    /// The device with the config space set as given.
    pub open spec fn with_config(self, config_space: Vec<u8>) -> Net<E, I> {
        Net {
            avail_features: self.avail_features,
            acked_features: self.acked_features,
            backend_features: self.backend_features,
            config_space,
            queue_sizes: self.queue_sizes,
            paused: self.paused,
            lifecycle: self.lifecycle,
        }
    }

    pub fn is_activated_now(&self) -> (b: bool)
        ensures
            b == self.is_activated(),
    {
        match &self.lifecycle {
            Lifecycle::Idle => false,
            Lifecycle::Activated { .. } => true,
        }
    }

    /// Activate the device. The queue list, its notification descriptors and
    /// the retained copies must all match the device's queue count, or the
    /// whole activation is rejected and the device is left untouched. On
    /// success the device retains `saved_evts` and `interrupt_cb` for the
    /// next reset, detaches the trailing control-queue pair when the
    /// control-queue feature was acknowledged on an odd queue count, and
    /// tells the caller what to hand to the backend-setup routine.
    pub fn activate<Q>(
        &mut self,
        queues: Vec<Q>,
        queue_evts: Vec<E>,
        saved_evts: Vec<E>,
        interrupt_cb: I,
    ) -> (r: Result<ActivatePlan<Q, E>, ActivateError>)
        ensures
            ({
                let n = old(self).queue_sizes@.len();
                if queues@.len() != n || queue_evts@.len() != n || saved_evts@.len() != n {
                    &&& r is Err
                    &&& (r matches Err(e) ==> e == ActivateError::BadActivate)
                    &&& *final(self) == *old(self)
                } else {
                    let split = old(self).ctrl_split_decision(queue_evts@.len() as int);
                    &&& *final(self) == old(self).with_activated(saved_evts, interrupt_cb, split)
                    &&& final(self).worker_threads() == (if split { 2int } else { 1int })
                    &&& r is Ok
                    &&& (r matches Ok(plan) ==> {
                        &&& plan.effective_features == old(self).acked_features & old(
                            self,
                        ).backend_features
                        &&& (split ==> {
                            &&& plan.ctrl == Some((queues@.last(), queue_evts@.last()))
                            &&& plan.data_queues@ == queues@.drop_last()
                            &&& plan.data_queue_evts@ == queue_evts@.drop_last()
                        })
                        &&& (!split ==> {
                            &&& plan.ctrl is None
                            &&& plan.data_queues@ == queues@
                            &&& plan.data_queue_evts@ == queue_evts@
                        })
                    })
                }
            }),
    {
        let expected: usize = self.queue_sizes.len();
        if queues.len() != expected || queue_evts.len() != expected || saved_evts.len()
            != expected {
            return Err(ActivateError::BadActivate);
        }
        let ghost orig_queues: Seq<Q> = queues@;
        let ghost orig_evts: Seq<E> = queue_evts@;
        let mut queues = queues;
        let mut queue_evts = queue_evts;
        let queue_num: usize = queue_evts.len();
        let split: bool = (self.acked_features & CTRL_VQ_MASK) != 0 && queue_num % 2 == 1;
        let ctrl: Option<(Q, E)> = if split {
            let cvq_queue = queues.remove(queue_num - 1);
            let cvq_queue_evt = queue_evts.remove(queue_num - 1);
            proof {
                assert(queues@ =~= orig_queues.drop_last());
                assert(queue_evts@ =~= orig_evts.drop_last());
            }
            Some((cvq_queue, cvq_queue_evt))
        } else {
            None
        };
        self.lifecycle = Lifecycle::Activated {
            queue_evts: saved_evts,
            interrupt_cb,
            ctrl_thread: split,
        };
        let effective_features: u64 = self.acked_features & self.backend_features;
        Ok(ActivatePlan { ctrl, data_queues: queues, data_queue_evts: queue_evts, effective_features })
    }

    /// First half of a reset: take an activated device out of the paused
    /// state, so a worker blocked in its pause wait is guaranteed to observe
    /// the shutdown that follows, and tell the caller how many backend
    /// queue resets to issue.
    pub fn reset_prepare(&mut self) -> (prep: ResetPrep)
        ensures
            *final(self) == old(self).after_reset_prepare(),
            prep == old(self).reset_prep_decision(),
            old(self).is_activated() ==> !final(self).paused,
    {
        let activated = self.is_activated_now();
        let prep = ResetPrep {
            resume_workers: activated && self.paused,
            queues_to_reset: self.queue_sizes.len(),
        };
        if activated {
            self.paused = false;
        }
        prep
    }

    /// Second half of a reset: when the backend-side reset went through on
    /// an activated device, return the retained interrupt handle and
    /// notification descriptors and go idle; the caller then signals
    /// shutdown. A failed backend reset, or an idle device, returns nothing
    /// and changes nothing.
    pub fn reset_commit(&mut self, backend_ok: bool) -> (r: Option<(I, Vec<E>)>)
        ensures
            *final(self) == old(self).after_reset_commit(backend_ok),
            r == old(self).reset_commit_result(backend_ok),
    {
        if !backend_ok {
            return None;
        }
        let mut taken: Lifecycle<E, I> = Lifecycle::Idle;
        core::mem::swap(&mut taken, &mut self.lifecycle);
        match taken {
            Lifecycle::Activated { queue_evts, interrupt_cb, .. } => Some(
                (interrupt_cb, queue_evts),
            ),
            Lifecycle::Idle => None,
        }
    }

    /// Set the shared pause flag; the caller signals the pause channel too
    /// when the device is activated, so a blocked worker wakes at once.
    pub fn pause(&mut self) -> (wake: bool)
        ensures
            *final(self) == old(self).with_paused(true),
            wake == old(self).is_activated(),
    {
        self.paused = true;
        self.is_activated_now()
    }

    /// Clear the shared pause flag; the caller wakes the workers when the
    /// device is activated.
    pub fn resume(&mut self) -> (wake: bool)
        ensures
            *final(self) == old(self).with_paused(false),
            wake == old(self).is_activated(),
    {
        self.paused = false;
        self.is_activated_now()
    }
}

/// For every acknowledgment the guest sends, the acknowledged mask after
/// `ack_features` stays within the offered mask: the excess bits are
/// dropped, never recorded.
pub proof fn lemma_ack_keeps_acked_within_avail<E, I>(d: Net<E, I>, page: u32, value: u32)
    requires
        d.wf(),
    ensures
        mask_within(
            d.acked_features | (page_value(page, value) & d.avail_features),
            d.avail_features,
        ),
{
    lemma_masked_or_stays_within(d.acked_features, d.avail_features, page_value(page, value));
}

/// Resetting an activated device hands back exactly the interrupt handle and
/// the notification descriptors that activation stored, and leaves the
/// device idle.
pub proof fn lemma_reset_returns_activation_resources<E, I>(
    d: Net<E, I>,
    saved_evts: Vec<E>,
    interrupt_cb: I,
    ctrl_thread: bool,
)
    ensures
        ({
            let activated = d.with_activated(saved_evts, interrupt_cb, ctrl_thread);
            let prepared = activated.after_reset_prepare();
            &&& prepared.reset_commit_result(true) == Some((interrupt_cb, saved_evts))
            &&& prepared.after_reset_commit(true).lifecycle is Idle
        }),
{
}

/// A reset of a paused, activated device leaves the paused state in its
/// first half, before the backend resets and the shutdown signal of its
/// second half; and on an activated device whose backend reset went
/// through, the shutdown signal is always issued.
pub proof fn lemma_reset_unpauses_before_shutdown<E, I>(d: Net<E, I>)
    requires
        d.is_activated(),
        d.paused,
    ensures
        !d.after_reset_prepare().paused,
        d.after_reset_prepare().reset_prep_decision().resume_workers == false,
        d.after_reset_prepare().reset_commit_result(true) is Some,
{
}

} // verus!
