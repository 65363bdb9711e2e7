//! High-level representation of the nested Information Elements.
use vstd::prelude::*;

use crate::bytes::{fill_zero, zeros, copy_at, le16, le_bytes, le_value, lemma_le_bytes_len, lemma_splice_splice, splice, write_le16_at, write_le_uint};
use crate::ie::nested::{
    nie_len, nie_sub_id, spec_nested_length_word, spec_nested_sub_id_word, NestedInformationElement, NestedSubId,
    NestedSubIdLong, NestedSubIdShort, TschSynchronization,
};
use crate::ie::tsch::{
    dur2, le2, spec_descriptor_len, spec_timeslot_ok, SlotframeDescriptor, TschSlotframeAndLink, spec_timings_bytes, spec_timings_fit, spec_timings_long, spec_timings_of, timings_bytes, timings_long, ChannelHopping, LinkInformation,
    TschLinkOption, TschTimeslot, TschTimeslotTimings,
};
use crate::repr::ie::lists::{descriptors_new, descriptors_of, descriptors_push, descriptors_slice, links_new, links_of, links_push, links_slice};
use crate::time::Duration;
use crate::Error;

verus! {

/// A high-level representation of a TSCH Synchronization nested Information
/// Element.
#[derive(Debug, Clone, Copy, PartialEq, Eq, Structural)]
pub struct TschSynchronizationRepr {
    /// The absolute slot number (ASN).
    pub absolute_slot_number: u64,
    /// The join metric.
    pub join_metric: u8,
}

/// The TSCH Synchronization stored in the content `b`.
pub open spec fn spec_parse_tsch_sync(b: Seq<u8>) -> TschSynchronizationRepr {
    TschSynchronizationRepr { absolute_slot_number: le_value(b, 0, 5) as u64, join_metric: b[5] }
}

/// The octets a TSCH Synchronization is written as: the five least
/// significant octets of the ASN, little-endian, and the join metric.
pub open spec fn spec_tsch_sync_bytes(r: TschSynchronizationRepr) -> Seq<u8> {
    le_bytes(r.absolute_slot_number, 5) + seq![r.join_metric]
}

impl TschSynchronizationRepr {
    /// Parse a TSCH Synchronization nested Information Element.
    pub fn parse(ie: &TschSynchronization<&[u8]>) -> (r: Self)
        requires
            ie@.len() >= 6,
        ensures
            r == spec_parse_tsch_sync(ie@),
    {
        Self { absolute_slot_number: ie.absolute_slot_number(), join_metric: ie.join_metric() }
    }

    /// The buffer length required to emit the element.
    pub fn buffer_len(&self) -> (r: usize)
        ensures
            r == 6,
    {
        6
    }

    /// Emit the element into the first six octets of `buffer`.
    pub fn emit(&self, buffer: &mut [u8])
        requires
            old(buffer)@.len() >= 6,
        ensures
            final(buffer)@ == splice(old(buffer)@, 0, spec_tsch_sync_bytes(*self)),
    {
        let ghost o = buffer@;
        proof {
            lemma_le_bytes_len(self.absolute_slot_number, 5);
        }
        write_le_uint(buffer, 0, 5, self.absolute_slot_number);
        buffer[5] = self.join_metric;
        assert(buffer@ =~= splice(o, 0, spec_tsch_sync_bytes(*self)));
    }
}

/// A high-level representation of a Channel Hopping nested Information
/// Element.
#[derive(Debug, Clone, Copy, PartialEq, Eq, Structural)]
pub struct ChannelHoppingRepr {
    /// The hopping sequence ID.
    pub hopping_sequence_id: u8,
}

impl ChannelHoppingRepr {
    /// Parse a Channel Hopping nested Information Element.
    pub fn parse(ie: &ChannelHopping<&[u8]>) -> (r: Self)
        requires
            ie@.len() >= 1,
        ensures
            r.hopping_sequence_id == ie@[0],
    {
        Self { hopping_sequence_id: ie.hopping_sequence_id() }
    }

    /// The buffer length required to emit the element.
    pub fn buffer_len(&self) -> (r: usize)
        ensures
            r == 1,
    {
        1
    }

    /// Emit the element into the first octet of `buffer`.
    pub fn emit(&self, buffer: &mut [u8])
        requires
            old(buffer)@.len() >= 1,
        ensures
            final(buffer)@ == old(buffer)@.update(0, self.hopping_sequence_id),
    {
        buffer[0] = self.hopping_sequence_id;
    }
}

/// A high-level representation of link options.
#[derive(Debug, Clone, Copy, PartialEq, Eq, Structural)]
pub struct TschLinkOptionRepr(pub TschLinkOption);

/// A high-level representation of a Link Information field.
#[derive(Debug, Clone, Copy, PartialEq, Eq, Structural)]
pub struct LinkInformationRepr {
    /// The timeslot.
    pub timeslot: u16,
    /// The channel offset.
    pub channel_offset: u16,
    /// The link options.
    pub link_options: TschLinkOptionRepr,
}

/// The Link Information stored in `b`: the timeslot, the channel offset
/// and the link options (unknown flags dropped).
pub open spec fn spec_link_matches(r: LinkInformationRepr, b: Seq<u8>) -> bool {
    &&& r.timeslot == le16(b[0], b[1])
    &&& r.channel_offset == le16(b[2], b[3])
    &&& r.link_options.0.spec_bits() == b[4] & 0x1f
}

/// The octets a Link Information is written as.
pub open spec fn spec_link_bytes(r: LinkInformationRepr) -> Seq<u8> {
    le2(r.timeslot) + le2(r.channel_offset) + seq![r.link_options.0.spec_bits()]
}

impl LinkInformationRepr {
    /// Parse a Link Information field.
    pub fn parse(ie: &LinkInformation<&[u8]>) -> (r: Self)
        requires
            ie@.len() >= 5,
        ensures
            spec_link_matches(r, ie@),
    {
        Self {
            timeslot: ie.timeslot(),
            channel_offset: ie.channel_offset(),
            link_options: TschLinkOptionRepr(ie.link_options()),
        }
    }

    /// The buffer length required to emit the field.
    pub fn buffer_len(&self) -> (r: usize)
        ensures
            r == 5,
    {
        5
    }

    /// Emit the field into the first five octets of `buffer`.
    pub fn emit(&self, buffer: &mut [u8])
        requires
            old(buffer)@.len() >= 5,
        ensures
            final(buffer)@ == splice(old(buffer)@, 0, spec_link_bytes(*self)),
    {
        let ghost o = buffer@;
        write_le16_at(buffer, 0, self.timeslot);
        write_le16_at(buffer, 2, self.channel_offset);
        buffer[4] = self.link_options.0.bits();
        assert(buffer@ =~= splice(o, 0, spec_link_bytes(*self)));
    }
}

/// A high-level representation of a TSCH Timeslot nested Information
/// Element.
#[derive(Debug, Clone, Copy, PartialEq, Eq, Structural)]
pub enum TschTimeslotRepr {
    /// Default Timeslot Template with given ID. ID shall be 0.
    Default(u8),
    /// Custom Timeslot timings
    Custom(TschTimeslotTimings),
}

/// The TSCH Timeslot stored in the content `b`.
pub open spec fn spec_parse_timeslot(b: Seq<u8>) -> TschTimeslotRepr {
    if spec_timings_fit(b) {
        TschTimeslotRepr::Custom(spec_timings_of(b))
    } else {
        TschTimeslotRepr::Default(b[0])
    }
}

/// The octets a TSCH Timeslot is written as.
pub open spec fn spec_timeslot_bytes(r: TschTimeslotRepr) -> Seq<u8> {
    match r {
        TschTimeslotRepr::Default(id) => seq![id],
        TschTimeslotRepr::Custom(t) => spec_timings_bytes(t, spec_timings_long(t)),
    }
}

impl TschTimeslotRepr {
    /// Parse a TSCH Timeslot nested Information Element: the timings when
    /// present, the template ID otherwise.
    pub fn parse(ie: &TschTimeslot<&[u8]>) -> (r: Self)
        requires
            ie@.len() >= 1,
        ensures
            r == spec_parse_timeslot(ie@),
    {
        if ie.has_timeslot_timings() {
            Self::Custom(ie.timeslot_timings())
        } else {
            Self::Default(ie.id())
        }
    }

    /// The buffer length required to emit the element: one octet for a
    /// template ID, 25 or 27 octets for the timings.
    pub fn buffer_len(&self) -> (r: usize)
        ensures
            r == spec_timeslot_bytes(*self).len(),
            r <= 27,
    {
        match self {
            Self::Default(_id) => 1,
            Self::Custom(timings) => {
                proof {
                    lemma_le_bytes_len(timings.max_tx.0 as u64, 3);
                    lemma_le_bytes_len(timings.timeslot_length.0 as u64, 3);
                }
                if timings_long(timings) {
                    27
                } else {
                    25
                }
            },
        }
    }

    /// Emit the element into `buffer`.
    pub fn emit(&self, buffer: &mut [u8])
        requires
            old(buffer)@.len() >= spec_timeslot_bytes(*self).len(),
        ensures
            final(buffer)@ == splice(old(buffer)@, 0, spec_timeslot_bytes(*self)),
    {
        let ghost o = buffer@;
        match self {
            Self::Default(id) => {
                buffer[0] = *id;
                assert(buffer@ =~= splice(o, 0, spec_timeslot_bytes(*self)));
            },
            Self::Custom(timings) => {
                let long = timings_long(timings);
                let bytes = timings_bytes(timings, long);
                proof {
                    lemma_le_bytes_len(timings.max_tx.0 as u64, 3);
                    lemma_le_bytes_len(timings.timeslot_length.0 as u64, 3);
                }
                copy_at(buffer, 0, bytes.as_slice());
            },
        }
    }
}

/// The octets of the `i`-th Link Information of the Slotframe Descriptor
/// `b`.
pub open spec fn spec_link_at(b: Seq<u8>, i: int) -> Seq<u8> {
    b.subrange(4 + 5 * i, 9 + 5 * i)
}

/// The octets a list of Link Information fields is written as.
pub open spec fn spec_links_bytes(s: Seq<LinkInformationRepr>) -> Seq<u8>
    decreases s.len(),
{
    if s.len() == 0 {
        seq![]
    } else {
        spec_links_bytes(s.drop_last()) + spec_link_bytes(s.last())
    }
}

/// Five octets per link.
pub proof fn lemma_links_bytes_len(s: Seq<LinkInformationRepr>)
    ensures
        spec_links_bytes(s).len() == 5 * s.len(),
    decreases s.len(),
{
    if s.len() > 0 {
        lemma_links_bytes_len(s.drop_last());
    }
}

/// A high-level representation of a Slotframe Descriptor.
#[derive(Debug)]
pub struct SlotframeDescriptorRepr {
    /// The Slotframe Handle.
    pub handle: u8,
    /// The size of the slotframe in number of timeslots.
    pub size: u16,
    /// The links of the slotframe.
    pub links: heapless::Vec<LinkInformationRepr, 4>,
}

/// `r` holds the Slotframe Descriptor `b`: its handle, its size and its
/// first links, at most four.
pub open spec fn spec_descriptor_matches(r: SlotframeDescriptorRepr, b: Seq<u8>) -> bool {
    &&& r.handle == b[0]
    &&& r.size == le16(b[1], b[2])
    &&& links_of(r.links).len() == (if b[3] <= 4 { b[3] as nat } else { 4nat })
    &&& forall|i: int| 0 <= i < links_of(r.links).len() ==> spec_link_matches(#[trigger] links_of(r.links)[i], spec_link_at(b, i))
}

/// The octets a Slotframe Descriptor is written as.
pub open spec fn spec_descriptor_bytes(handle: u8, size: u16, links: Seq<LinkInformationRepr>) -> Seq<u8> {
    seq![handle] + le2(size) + seq![links.len() as u8] + spec_links_bytes(links)
}

impl SlotframeDescriptorRepr {
    /// Parse a Slotframe Descriptor; the links after the fourth are not
    /// kept.
    pub fn parse(sd: &SlotframeDescriptor<&[u8]>) -> (r: Self)
        requires
            sd@.len() >= 4,
            sd@.len() >= spec_descriptor_len(sd@[3]),
        ensures
            spec_descriptor_matches(r, sd@),
    {
        let ghost b = sd@;
        let ghost n = sd@[3] as nat;
        let mut links = links_new();
        let mut iter = sd.link_informations();
        loop
            invariant_except_break
                iter.spec_offset() == 5 * links_of(links).len(),
            invariant
                b.len() >= 4 + 5 * n,
                iter.spec_data() == b.subrange(4, (4 + 5 * n) as int),
                links_of(links).len() <= 4,
                links_of(links).len() <= n,
                forall|i: int| 0 <= i < links_of(links).len() ==> spec_link_matches(#[trigger] links_of(links)[i], spec_link_at(b, i)),
            ensures
                links_of(links).len() == (if n <= 4 { n } else { 4nat }),
                forall|i: int| 0 <= i < links_of(links).len() ==> spec_link_matches(#[trigger] links_of(links)[i], spec_link_at(b, i)),
            decreases 5 * n - iter.spec_offset(),
        {
            let ghost k = links_of(links).len();
            match iter.next() {
                Some(li) => {
                    let repr = LinkInformationRepr::parse(&li);
                    assert(li@ =~= spec_link_at(b, k as int));
                    if links_push(&mut links, repr).is_err() {
                        break;
                    }
                    assert(links_of(links)[k as int] == repr);
                },
                None => break,
            }
        }
        Self { handle: sd.handle(), size: sd.size(), links }
    }

    /// The buffer length required to emit the descriptor.
    pub fn buffer_len(&self) -> (r: usize)
        ensures
            r == 4 + 5 * links_of(self.links).len(),
            r <= 24,
    {
        let links = links_slice(&self.links);
        4 + links.len() * 5
    }

    /// Emit the descriptor into `buffer`.
    pub fn emit(&self, buffer: &mut [u8])
        requires
            old(buffer)@.len() >= 4 + 5 * links_of(self.links).len(),
        ensures
            final(buffer)@ == splice(old(buffer)@, 0, spec_descriptor_bytes(self.handle, self.size, links_of(self.links))),
    {
        let ghost o = buffer@;
        let links = links_slice(&self.links);
        let n = links.len();
        buffer[0] = self.handle;
        write_le16_at(buffer, 1, self.size);
        buffer[3] = n as u8;
        let ghost head = seq![self.handle] + le2(self.size) + seq![n as u8];
        assert(buffer@ =~= splice(o, 0, head + spec_links_bytes(links@.take(0))));
        let mut i: usize = 0;
        while i < n
            invariant
                n == links@.len(),
                n <= 4,
                links@ == links_of(self.links),
                o.len() >= 4 + 5 * n,
                i <= n,
                head.len() == 4,
                head == seq![self.handle] + le2(self.size) + seq![n as u8],
                buffer@ == splice(o, 0, head + spec_links_bytes(links@.take(i as int))),
            decreases n - i,
        {
            proof {
                lemma_links_bytes_len(links@.take(i as int));
            }
            let ghost before = buffer@;
            let off = 4 + 5 * i;
            let (_head, tail) = buffer.split_at_mut(off);
            links[i].emit(tail);
            proof {
                assert(buffer@ =~= splice(before, off as int, spec_link_bytes(links@[i as int])));
                lemma_splice_splice(o, 0, head + spec_links_bytes(links@.take(i as int)), spec_link_bytes(links@[i as int]));
                assert(links@.take(i + 1).drop_last() =~= links@.take(i as int));
                assert(head + spec_links_bytes(links@.take(i + 1)) =~= head + spec_links_bytes(links@.take(i as int)) + spec_link_bytes(links@[i as int]));
            }
            i = i + 1;
        }
        assert(links@.take(n as int) =~= links@);
    }
}

/// The Slotframe Descriptor `d` holds at `o` is valid.
pub open spec fn spec_sd_valid_at(d: Seq<u8>, o: int) -> bool {
    &&& 0 <= o <= d.len()
    &&& d.len() - o >= 4
    &&& d.len() - o >= spec_descriptor_len(d[o + 3])
}

/// The offsets of the Slotframe Descriptors read from `d`, from offset `o`,
/// at most `rem` of them, until one is not valid.
pub open spec fn spec_sd_offsets(d: Seq<u8>, o: int, rem: nat) -> Seq<int>
    decreases rem,
{
    if rem == 0 || !spec_sd_valid_at(d, o) {
        seq![]
    } else {
        seq![o] + spec_sd_offsets(d, o + spec_descriptor_len(d[o + 3]), (rem - 1) as nat)
    }
}

/// The octets a list of Slotframe Descriptors is written as.
pub open spec fn spec_descriptors_bytes(s: Seq<SlotframeDescriptorRepr>) -> Seq<u8>
    decreases s.len(),
{
    if s.len() == 0 {
        seq![]
    } else {
        spec_descriptors_bytes(s.drop_last()) + spec_descriptor_bytes(s.last().handle, s.last().size, links_of(s.last().links))
    }
}

/// The length of a written list of Slotframe Descriptors.
pub open spec fn spec_descriptors_len(s: Seq<SlotframeDescriptorRepr>) -> nat
    decreases s.len(),
{
    if s.len() == 0 {
        0
    } else {
        spec_descriptors_len(s.drop_last()) + 4 + 5 * links_of(s.last().links).len()
    }
}

/// The written list has the length computed.
pub proof fn lemma_descriptors_bytes_len(s: Seq<SlotframeDescriptorRepr>)
    ensures
        spec_descriptors_bytes(s).len() == spec_descriptors_len(s),
    decreases s.len(),
{
    if s.len() > 0 {
        lemma_descriptors_bytes_len(s.drop_last());
        lemma_links_bytes_len(links_of(s.last().links));
    }
}

/// A high-level representation of a TSCH Slotframe and Link nested
/// Information Element.
#[derive(Debug)]
pub struct TschSlotframeAndLinkRepr {
    /// The slotframe descriptors.
    pub slotframe_descriptors: heapless::Vec<SlotframeDescriptorRepr, 3>,
}

/// The representation `r` holds the Slotframe Descriptors read from `d`
/// (the content after the number of slotframes), at most three of them.
pub open spec fn spec_slotframes_match(r: Seq<SlotframeDescriptorRepr>, d: Seq<u8>, n: u8) -> bool {
    let offs = spec_sd_offsets(d, 0, n as nat);
    &&& r.len() == (if offs.len() <= 3 { offs.len() } else { 3nat })
    &&& forall|i: int| 0 <= i < r.len() ==> spec_descriptor_matches(#[trigger] r[i], d.subrange(offs[i], d.len() as int))
}

/// The octets a TSCH Slotframe and Link element is written as: the number
/// of slotframes and the descriptors.
pub open spec fn spec_slotframe_and_link_bytes(s: Seq<SlotframeDescriptorRepr>) -> Seq<u8> {
    seq![s.len() as u8] + spec_descriptors_bytes(s)
}

impl TschSlotframeAndLinkRepr {
    /// Parse a TSCH Slotframe and Link nested Information Element; the
    /// descriptors after the third are not kept.
    pub fn parse(ie: &TschSlotframeAndLink<&[u8]>) -> (r: Self)
        requires
            ie@.len() >= 1,
        ensures
            spec_slotframes_match(descriptors_of(r.slotframe_descriptors), ie@.skip(1), ie@[0]),
    {
        let ghost d = ie@.skip(1);
        let ghost all = spec_sd_offsets(d, 0, ie@[0] as nat);
        let mut list = descriptors_new();
        let mut iter = ie.slotframe_descriptors();
        let ghost mut k: nat = 0;
        loop
            invariant
                iter.spec_data() == d,
                k <= all.len(),
                all.subrange(k as int, all.len() as int) == spec_sd_offsets(d, iter.spec_offset() as int, iter.spec_remaining() as nat),
                descriptors_of(list).len() == (if k <= 3 { k } else { 3nat }),
                forall|i: int| 0 <= i < descriptors_of(list).len() ==> spec_descriptor_matches(#[trigger] descriptors_of(list)[i], d.subrange(all[i], d.len() as int)),
            ensures
                k == all.len(),
                descriptors_of(list).len() == (if k <= 3 { k } else { 3nat }),
                forall|i: int| 0 <= i < descriptors_of(list).len() ==> spec_descriptor_matches(#[trigger] descriptors_of(list)[i], d.subrange(all[i], d.len() as int)),
            decreases iter.spec_remaining(),
        {
            let ghost o = iter.spec_offset() as int;
            let ghost rem = iter.spec_remaining() as nat;
            match iter.next() {
                Some(sd) => {
                    assert(spec_sd_valid_at(d, o));
                    assert(all[k as int] == o) by {
                        assert(all.subrange(k as int, all.len() as int)[0] == o);
                    }
                    let repr = SlotframeDescriptorRepr::parse(&sd);
                    let ghost before = descriptors_of(list);
                    let _ = descriptors_push(&mut list, repr);
                    proof {
                        assert(all.subrange((k + 1) as int, all.len() as int) =~= all.subrange(k as int, all.len() as int).skip(1));
                        k = k + 1;
                    }
                },
                None => {
                    assert(spec_sd_offsets(d, o, rem) =~= Seq::<int>::empty());
                    break;
                },
            }
        }
        Self { slotframe_descriptors: list }
    }

    /// The buffer length required to emit the element.
    pub fn buffer_len(&self) -> (r: usize)
        ensures
            r == 1 + spec_descriptors_len(descriptors_of(self.slotframe_descriptors)),
            r <= 73,
    {
        let ds = descriptors_slice(&self.slotframe_descriptors);
        let mut len: usize = 1;
        let mut i: usize = 0;
        while i < ds.len()
            invariant
                ds@ == descriptors_of(self.slotframe_descriptors),
                ds@.len() <= 3,
                i <= ds@.len(),
                len == 1 + spec_descriptors_len(ds@.take(i as int)),
                len <= 1 + 24 * i,
            decreases ds@.len() - i,
        {
            let l = ds[i].buffer_len();
            assert(ds@.take(i + 1).drop_last() =~= ds@.take(i as int));
            len = len + l;
            i = i + 1;
        }
        assert(ds@.take(ds@.len() as int) =~= ds@);
        len
    }

    /// Emit the element into `buffer`.
    pub fn emit(&self, buffer: &mut [u8])
        requires
            old(buffer)@.len() >= 1 + spec_descriptors_len(descriptors_of(self.slotframe_descriptors)),
        ensures
            final(buffer)@ == splice(old(buffer)@, 0, spec_slotframe_and_link_bytes(descriptors_of(self.slotframe_descriptors))),
    {
        let ghost o = buffer@;
        let blen = buffer.len();
        let ds = descriptors_slice(&self.slotframe_descriptors);
        let n = ds.len();
        buffer[0] = n as u8;
        proof {
            lemma_descriptors_bytes_len(ds@);
        }
        assert(buffer@ =~= splice(o, 0, seq![n as u8] + spec_descriptors_bytes(ds@.take(0))));
        let mut offset: usize = 1;
        let mut i: usize = 0;
        while i < n
            invariant
                n == ds@.len(),
                n <= 3,
                ds@ == descriptors_of(self.slotframe_descriptors),
                o.len() >= 1 + spec_descriptors_len(ds@),
                o.len() == blen,
                i <= n,
                offset == 1 + spec_descriptors_len(ds@.take(i as int)),
                buffer@ == splice(o, 0, seq![n as u8] + spec_descriptors_bytes(ds@.take(i as int))),
            decreases n - i,
        {
            proof {
                lemma_descriptors_bytes_len(ds@.take(i as int));
                lemma_descriptors_split(ds@, i as int);
            }
            let ghost before = buffer@;
            let l = ds[i].buffer_len();
            let (_head, tail) = buffer.split_at_mut(offset);
            ds[i].emit(tail);
            proof {
                let bi = spec_descriptor_bytes(ds@[i as int].handle, ds@[i as int].size, links_of(ds@[i as int].links));
                lemma_links_bytes_len(links_of(ds@[i as int].links));
                assert(buffer@ =~= splice(before, offset as int, bi));
                lemma_splice_splice(o, 0, seq![n as u8] + spec_descriptors_bytes(ds@.take(i as int)), bi);
                assert(ds@.take(i + 1).drop_last() =~= ds@.take(i as int));
                assert(seq![n as u8] + spec_descriptors_bytes(ds@.take(i + 1)) =~= seq![n as u8] + spec_descriptors_bytes(ds@.take(i as int)) + bi);
            }
            offset = offset + l;
            i = i + 1;
        }
        assert(ds@.take(n as int) =~= ds@);
    }
}

/// The length of a list is the length of a prefix and of the rest.
pub proof fn lemma_descriptors_split(s: Seq<SlotframeDescriptorRepr>, i: int)
    requires
        0 <= i < s.len(),
    ensures
        spec_descriptors_len(s.take(i + 1)) == spec_descriptors_len(s.take(i)) + 4 + 5 * links_of(s[i].links).len(),
        spec_descriptors_len(s.take(i + 1)) <= spec_descriptors_len(s),
{
    assert(s.take(i + 1).drop_last() =~= s.take(i));
    lemma_descriptors_prefix_le(s, i + 1);
}

/// A prefix is no longer than the whole list.
pub proof fn lemma_descriptors_prefix_le(s: Seq<SlotframeDescriptorRepr>, j: int)
    requires
        0 <= j <= s.len(),
    ensures
        spec_descriptors_len(s.take(j)) <= spec_descriptors_len(s),
    decreases s.len() - j,
{
    if j < s.len() {
        lemma_descriptors_prefix_le(s, j + 1);
        assert(s.take(j + 1).drop_last() =~= s.take(j));
    } else {
        assert(s.take(j) =~= s);
    }
}

/// A high-level representation of a nested Information Element.
#[derive(Debug)]
pub enum NestedInformationElementRepr {
    /// TSCH Synchronization Information Element.
    TschSynchronization(TschSynchronizationRepr),
    /// TSCH Timeslot Information Element.
    TschTimeslot(TschTimeslotRepr),
    /// TSCH Slotframe and Link Information Element.
    TschSlotframeAndLink(TschSlotframeAndLinkRepr),
    /// Channel Hopping Information Element.
    ChannelHopping(ChannelHoppingRepr),
}

/// The sub-ID of a representation.
pub open spec fn spec_nested_repr_sub_id(r: NestedInformationElementRepr) -> NestedSubId {
    match r {
        NestedInformationElementRepr::TschSynchronization(_) => NestedSubId::Short(NestedSubIdShort::TschSynchronization),
        NestedInformationElementRepr::TschTimeslot(_) => NestedSubId::Short(NestedSubIdShort::TschTimeslot),
        NestedInformationElementRepr::TschSlotframeAndLink(_) => NestedSubId::Short(NestedSubIdShort::TschSlotframeAndLink),
        NestedInformationElementRepr::ChannelHopping(_) => NestedSubId::Long(NestedSubIdLong::ChannelHopping),
    }
}

/// The octets of the content of a representation.
pub open spec fn spec_nested_inner_bytes(r: NestedInformationElementRepr) -> Seq<u8> {
    match r {
        NestedInformationElementRepr::TschSynchronization(s) => spec_tsch_sync_bytes(s),
        NestedInformationElementRepr::TschTimeslot(t) => spec_timeslot_bytes(t),
        NestedInformationElementRepr::TschSlotframeAndLink(x) => spec_slotframe_and_link_bytes(descriptors_of(x.slotframe_descriptors)),
        NestedInformationElementRepr::ChannelHopping(h) => seq![h.hopping_sequence_id],
    }
}

/// The header word of a nested IE with content length `len` and sub-ID
/// `id`, written over a cleared word.
pub open spec fn spec_nested_word(len: u16, id: NestedSubId) -> u16 {
    spec_nested_sub_id_word(spec_nested_length_word(0, len, id), id)
}

/// The octets a representation is written as.
pub open spec fn spec_nested_repr_bytes(r: NestedInformationElementRepr) -> Seq<u8> {
    le2(spec_nested_word(spec_nested_inner_bytes(r).len() as u16, spec_nested_repr_sub_id(r))) + spec_nested_inner_bytes(r)
}

/// The content of the nested IE `b`.
pub open spec fn spec_nested_content(b: Seq<u8>) -> Seq<u8> {
    b.subrange(2, 2 + nie_len(b[0], b[1]) as int)
}

/// The nested IE `b` is supported and its content is accepted by its
/// reader.
pub open spec fn spec_nested_ok(b: Seq<u8>) -> bool {
    let c = spec_nested_content(b);
    match nie_sub_id(b[0], b[1]) {
        NestedSubId::Short(NestedSubIdShort::TschSynchronization) => c.len() >= 6,
        NestedSubId::Short(NestedSubIdShort::TschTimeslot) => spec_timeslot_ok(c),
        NestedSubId::Short(NestedSubIdShort::TschSlotframeAndLink) => c.len() >= 1,
        NestedSubId::Long(NestedSubIdLong::ChannelHopping) => c.len() >= 1,
        _ => false,
    }
}

/// `r` represents the nested IE `b`.
pub open spec fn spec_nested_matches(r: NestedInformationElementRepr, b: Seq<u8>) -> bool {
    let c = spec_nested_content(b);
    &&& nie_sub_id(b[0], b[1]) == spec_nested_repr_sub_id(r)
    &&& match r {
        NestedInformationElementRepr::TschSynchronization(s) => s == spec_parse_tsch_sync(c),
        NestedInformationElementRepr::TschTimeslot(t) => t == spec_parse_timeslot(c),
        NestedInformationElementRepr::TschSlotframeAndLink(x) => spec_slotframes_match(descriptors_of(x.slotframe_descriptors), c.skip(1), c[0]),
        NestedInformationElementRepr::ChannelHopping(h) => h.hopping_sequence_id == c[0],
    }
}

impl NestedInformationElementRepr {
    /// Parse a nested Information Element; fails for an unsupported element
    /// and for a content its reader refuses.
    pub fn parse(ie: &NestedInformationElement<&[u8]>) -> (r: Result<Self, Error>)
        requires
            ie@.len() >= 2 + ie.spec_length(),
        ensures
            r is Ok <==> spec_nested_ok(ie@),
            r matches Ok(v) ==> spec_nested_matches(v, ie@),
    {
        match ie.sub_id() {
            NestedSubId::Short(NestedSubIdShort::TschSynchronization) => match TschSynchronization::new(ie.content()) {
                Ok(s) => Ok(Self::TschSynchronization(TschSynchronizationRepr::parse(&s))),
                Err(e) => Err(e),
            },
            NestedSubId::Short(NestedSubIdShort::TschTimeslot) => match TschTimeslot::new(ie.content()) {
                Ok(t) => Ok(Self::TschTimeslot(TschTimeslotRepr::parse(&t))),
                Err(e) => Err(e),
            },
            NestedSubId::Short(NestedSubIdShort::TschSlotframeAndLink) => match TschSlotframeAndLink::new(ie.content()) {
                Ok(x) => Ok(Self::TschSlotframeAndLink(TschSlotframeAndLinkRepr::parse(&x))),
                Err(e) => Err(e),
            },
            NestedSubId::Long(NestedSubIdLong::ChannelHopping) => match ChannelHopping::new(ie.content()) {
                Ok(h) => Ok(Self::ChannelHopping(ChannelHoppingRepr::parse(&h))),
                Err(e) => Err(e),
            },
            _ => Err(Error),
        }
    }

    /// The sub-ID of this element.
    pub fn sub_id(&self) -> (r: NestedSubId)
        ensures
            r == spec_nested_repr_sub_id(*self),
    {
        match self {
            Self::TschSynchronization(_) => NestedSubId::Short(NestedSubIdShort::TschSynchronization),
            Self::TschTimeslot(_) => NestedSubId::Short(NestedSubIdShort::TschTimeslot),
            Self::TschSlotframeAndLink(_) => NestedSubId::Short(NestedSubIdShort::TschSlotframeAndLink),
            Self::ChannelHopping(_) => NestedSubId::Long(NestedSubIdLong::ChannelHopping),
        }
    }

    /// The buffer length required to emit the element.
    pub fn buffer_len(&self) -> (r: usize)
        ensures
            r == spec_nested_repr_bytes(*self).len(),
            r <= 75,
    {
        2 + self.inner_len()
    }

    /// The length of the content of the element.
    pub fn inner_len(&self) -> (r: usize)
        ensures
            r == spec_nested_inner_bytes(*self).len(),
            r <= 73,
    {
        match self {
            Self::TschSynchronization(repr) => {
                proof {
                    lemma_le_bytes_len(repr.absolute_slot_number, 5);
                }
                repr.buffer_len()
            },
            Self::TschTimeslot(repr) => repr.buffer_len(),
            Self::TschSlotframeAndLink(repr) => {
                proof {
                    lemma_descriptors_bytes_len(descriptors_of(repr.slotframe_descriptors));
                }
                repr.buffer_len()
            },
            Self::ChannelHopping(repr) => repr.buffer_len(),
        }
    }

    /// Emit the element into `buffer`; the octets after it are cleared.
    pub fn emit(&self, buffer: &mut [u8])
        requires
            old(buffer)@.len() >= spec_nested_repr_bytes(*self).len(),
        ensures
            final(buffer)@ == spec_nested_repr_bytes(*self) + zeros((old(buffer)@.len() - spec_nested_repr_bytes(*self).len()) as nat),
    {
        let ghost n = buffer@.len();
        let id = self.sub_id();
        let len = self.inner_len() as u16;
        fill_zero(buffer);
        let v: u16 = 0;
        let w1 = match id {
            NestedSubId::Long(_) => (v & !0b111_1111_1111u16) | (len & 0b111_1111_1111),
            NestedSubId::Short(_) => (v & !0b1111_1111u16) | (len & 0b1111_1111),
        };
        let word = match id {
            NestedSubId::Long(l) => (w1 & !0b0111_1000_0000_0000u16) | (((l.value() as u16) & 0b1111) << 11u16) | 0b1000_0000_0000_0000,
            NestedSubId::Short(s) => (w1 & !0b1111_1111_0000_0000u16) | (((s.value() as u16) & 0b111_1111) << 8u16),
        };
        write_le16_at(buffer, 0, word);
        let ghost after_word = buffer@;
        let (_head, content) = buffer.split_at_mut(2);
        match self {
            Self::TschSynchronization(repr) => {
                proof {
                    lemma_le_bytes_len(repr.absolute_slot_number, 5);
                }
                repr.emit(content)
            },
            Self::TschTimeslot(repr) => repr.emit(content),
            Self::TschSlotframeAndLink(repr) => {
                proof {
                    lemma_descriptors_bytes_len(descriptors_of(repr.slotframe_descriptors));
                }
                repr.emit(content)
            },
            Self::ChannelHopping(repr) => repr.emit(content),
        }
        assert(buffer@ =~= spec_nested_repr_bytes(*self) + zeros((n - spec_nested_repr_bytes(*self).len()) as nat));
    }
}

} // verus!
