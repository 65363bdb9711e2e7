//! Reading back what the nested Information Element representations write
//! gives the representations back.
use vstd::prelude::*;

use crate::bytes::{le16, le_bytes, le_value, lemma_le16_split, lemma_le_bytes_len, lemma_le_bytes_value, pow256};
use crate::ie::nested::{nie_len, nie_sub_id, NestedSubId, NestedSubIdLong, NestedSubIdShort};
use crate::ie::tsch::{dur2, dur3, le2, spec_timings_bytes, spec_timings_long, spec_timings_of, TschTimeslotTimings};
use crate::ie::tsch::{spec_descriptor_len, spec_timeslot_ok};
use crate::ie::nested::nested_step;
use crate::ie::headers::{header_end, header_step, hie_id, hie_len, HeaderElementId};
use crate::ie::payloads::{payload_end, payload_step};
use crate::ie::{spec_headers_end, spec_ies_len, spec_payloads_len};
use crate::repr::frame::spec_ies_written;
use crate::repr::ie::headers::{
    lemma_header_ie_roundtrip, spec_header_repr_bytes, spec_header_repr_inner_len, spec_parse_header_ie,
    HeaderInformationElementRepr,
};
use crate::repr::ie::lists::{header_ies_of, payload_ies_of};
use crate::repr::ie::{
    spec_header_fits, spec_header_ies, spec_header_list_bytes, spec_ie_headers, spec_ie_payloads, spec_ies_parse_ok,
    spec_ies_parse_safe, spec_payload_ies, spec_payload_list_bytes, InformationElementsRepr,
};
use crate::ie::payloads::{pie_group_id, pie_len, PayloadGroupId};
use crate::repr::ie::lists::{descriptors_of, links_of, nested_of};
use crate::repr::ie::payloads::{
    spec_nested_ies, spec_nested_ies_fit, spec_nested_kept, spec_nested_list_bytes, spec_nested_read, spec_payload_content,
    spec_payload_inner_bytes, spec_payload_matches, spec_payload_nested, spec_payload_ok, spec_payload_repr_bytes,
    spec_payload_word, PayloadInformationElementRepr,
};
use crate::repr::ie::nested::{
    spec_nested_content, spec_nested_inner_bytes, spec_nested_matches, spec_nested_ok, spec_nested_repr_bytes,
    spec_nested_repr_sub_id, spec_slotframe_and_link_bytes, NestedInformationElementRepr,
    lemma_descriptors_bytes_len, lemma_links_bytes_len, spec_descriptor_bytes, spec_descriptor_matches,
    spec_descriptors_bytes, spec_descriptors_len, spec_link_at, spec_link_bytes, spec_link_matches, spec_links_bytes,
    spec_nested_word, spec_parse_timeslot, spec_parse_tsch_sync, spec_sd_offsets, spec_slotframes_match,
    spec_timeslot_bytes, spec_tsch_sync_bytes, LinkInformationRepr, SlotframeDescriptorRepr, TschSynchronizationRepr,
    TschTimeslotRepr,
};
use crate::time::Duration;

verus! {

/// The sub-ID is one that the nested IE representations write.
pub open spec fn spec_written_sub_id(id: NestedSubId) -> bool {
    match id {
        NestedSubId::Short(s) => s is TschSynchronization || s is TschTimeslot || s is TschSlotframeAndLink,
        NestedSubId::Long(l) => l is ChannelHopping,
    }
}

/// The content length fits the length field of a nested IE with sub-ID
/// `id`: 8 bits in the short format, 11 bits in the long one.
pub open spec fn spec_nested_len_fits(len: nat, id: NestedSubId) -> bool {
    match id {
        NestedSubId::Short(_) => len <= 0xff,
        NestedSubId::Long(_) => len <= 0x7ff,
    }
}

/// The header word written for a content length and a sub-ID reads back
/// as that length and that sub-ID.
pub proof fn lemma_nested_header_roundtrip(len: u16, id: NestedSubId, rest: Seq<u8>)
    requires
        spec_written_sub_id(id),
        spec_nested_len_fits(len as nat, id),
    ensures
        ({
            let b = le2(spec_nested_word(len, id)) + rest;
            nie_len(b[0], b[1]) == len && nie_sub_id(b[0], b[1]) == id
        }),
{
    let w = spec_nested_word(len, id);
    let b = le2(w) + rest;
    lemma_le16_split(w);
    assert(b[0] == (w & 0xff) as u8 && b[1] == (w >> 8u16) as u8);
    match id {
        NestedSubId::Short(s) => {
            let c: u16 = s.spec_value() as u16;
            assert(c <= 0x7f);
            assert(len <= 0xff && c <= 0x7f ==> ({
                let w2 = (((0u16 & !0b1111_1111u16) | (len & 0b1111_1111)) & !0b1111_1111_0000_0000u16)
                    | ((c & 0b111_1111) << 8u16);
                &&& (((w2 >> 8u16) as u8) >> 7u8) & 1 == 0
                &&& w2 & 0b1111_1111 == len
                &&& ((w2 >> 8u16) & 0b111_1111) as u8 == c
            })) by (bit_vector);
        },
        NestedSubId::Long(l) => {
            let c: u16 = l.spec_value() as u16;
            assert(c <= 0xf);
            assert(len <= 0x7ff && c <= 0xf ==> ({
                let w2 = (((0u16 & !0b111_1111_1111u16) | (len & 0b111_1111_1111)) & !0b0111_1000_0000_0000u16)
                    | ((c & 0b1111) << 11u16) | 0b1000_0000_0000_0000;
                &&& (((w2 >> 8u16) as u8) >> 7u8) & 1 == 1
                &&& w2 & 0b111_1111_1111 == len
                &&& ((w2 >> 11u16) & 0b1111) as u8 == c
            })) by (bit_vector);
        },
    }
}

/// Reading back a TSCH Synchronization written with an absolute slot
/// number that fits five octets gives it back.
pub proof fn lemma_tsch_sync_roundtrip(s: TschSynchronizationRepr, rest: Seq<u8>)
    requires
        s.absolute_slot_number < 0x100_0000_0000,
    ensures
        spec_parse_tsch_sync(spec_tsch_sync_bytes(s) + rest) == s,
{
    let b = spec_tsch_sync_bytes(s) + rest;
    lemma_le_bytes_len(s.absolute_slot_number, 5);
    assert(b.subrange(0, 5) =~= le_bytes(s.absolute_slot_number, 5));
    lemma_le_bytes_value(s.absolute_slot_number, 5, b, 0);
    assert(pow256(5) == 0x100_0000_0000) by {
        reveal_with_fuel(pow256, 6);
    }
    assert(b[5] == s.join_metric);
}

/// A duration written as two octets, when it fits them.
pub open spec fn spec_dur2_fits(d: Duration) -> bool {
    0 <= d.0 < 0x1_0000
}

/// A duration written as three octets, when it fits them.
pub open spec fn spec_dur3_fits(d: Duration) -> bool {
    0 <= d.0 < 0x100_0000
}

/// Every duration of the timings fits the field it is written in: two
/// octets, three for the longest frame time and the timeslot length.
pub open spec fn spec_timings_fit_fields(t: TschTimeslotTimings) -> bool {
    &&& spec_dur2_fits(t.cca_offset)
    &&& spec_dur2_fits(t.cca)
    &&& spec_dur2_fits(t.tx_offset)
    &&& spec_dur2_fits(t.rx_offset)
    &&& spec_dur2_fits(t.rx_ack_delay)
    &&& spec_dur2_fits(t.tx_ack_delay)
    &&& spec_dur2_fits(t.rx_wait)
    &&& spec_dur2_fits(t.ack_wait)
    &&& spec_dur2_fits(t.rx_tx)
    &&& spec_dur2_fits(t.max_ack)
    &&& spec_dur3_fits(t.max_tx)
    &&& spec_dur3_fits(t.timeslot_length)
}

/// Two octets written for a duration read back as it.
proof fn lemma_dur2_at(d: Duration, b: Seq<u8>, i: int)
    requires
        spec_dur2_fits(d),
        0 <= i,
        i + 2 <= b.len(),
        b.subrange(i, i + 2) == dur2(d),
    ensures
        le16(b[i], b[i + 1]) as i64 == d.0,
{
    assert(b[i] == b.subrange(i, i + 2)[0] && b[i + 1] == b.subrange(i, i + 2)[1]);
    lemma_le16_split(d.0 as u16);
}

/// Three octets written for a duration read back as it.
proof fn lemma_dur3_at(d: Duration, b: Seq<u8>, i: int)
    requires
        spec_dur3_fits(d),
        0 <= i,
        i + 3 <= b.len(),
        b.subrange(i, i + 3) == dur3(d),
    ensures
        le_value(b, i, 3) as i64 == d.0,
{
    lemma_le_bytes_value(d.0 as u64, 3, b, i);
    assert(pow256(3) == 0x100_0000) by {
        reveal_with_fuel(pow256, 4);
    }
}

/// Reading back timings written in the format they are written in gives
/// them back, when each duration fits its field.
pub proof fn lemma_timings_roundtrip(t: TschTimeslotTimings)
    requires
        spec_timings_fit_fields(t),
    ensures
        spec_timings_of(spec_timings_bytes(t, spec_timings_long(t))) == t,
{
    let long = spec_timings_long(t);
    let b = spec_timings_bytes(t, long);
    lemma_le_bytes_len(t.max_tx.0 as u64, 3);
    lemma_le_bytes_len(t.timeslot_length.0 as u64, 3);
    assert(b.len() == (if long { 27int } else { 25int }));
    assert(b.subrange(1, 3) =~= dur2(t.cca_offset));
    assert(b.subrange(3, 5) =~= dur2(t.cca));
    assert(b.subrange(5, 7) =~= dur2(t.tx_offset));
    assert(b.subrange(7, 9) =~= dur2(t.rx_offset));
    assert(b.subrange(9, 11) =~= dur2(t.rx_ack_delay));
    assert(b.subrange(11, 13) =~= dur2(t.tx_ack_delay));
    assert(b.subrange(13, 15) =~= dur2(t.rx_wait));
    assert(b.subrange(15, 17) =~= dur2(t.ack_wait));
    assert(b.subrange(17, 19) =~= dur2(t.rx_tx));
    assert(b.subrange(19, 21) =~= dur2(t.max_ack));
    lemma_dur2_at(t.cca_offset, b, 1);
    lemma_dur2_at(t.cca, b, 3);
    lemma_dur2_at(t.tx_offset, b, 5);
    lemma_dur2_at(t.rx_offset, b, 7);
    lemma_dur2_at(t.rx_ack_delay, b, 9);
    lemma_dur2_at(t.tx_ack_delay, b, 11);
    lemma_dur2_at(t.rx_wait, b, 13);
    lemma_dur2_at(t.ack_wait, b, 15);
    lemma_dur2_at(t.rx_tx, b, 17);
    lemma_dur2_at(t.max_ack, b, 19);
    if long {
        assert(b.subrange(21, 24) =~= dur3(t.max_tx));
        assert(b.subrange(24, 27) =~= dur3(t.timeslot_length));
        lemma_dur3_at(t.max_tx, b, 21);
        lemma_dur3_at(t.timeslot_length, b, 24);
    } else {
        assert(b.subrange(21, 23) =~= dur2(t.max_tx));
        assert(b.subrange(23, 25) =~= dur2(t.timeslot_length));
        lemma_dur2_at(t.max_tx, b, 21);
        lemma_dur2_at(t.timeslot_length, b, 23);
    }
    assert(spec_timings_of(b) == t);
}

/// Reading back a TSCH Timeslot written for the default template (ID 0)
/// or for timings whose durations fit their fields gives it back.
pub proof fn lemma_timeslot_roundtrip(r: TschTimeslotRepr)
    requires
        match r {
            TschTimeslotRepr::Default(id) => id == 0,
            TschTimeslotRepr::Custom(t) => spec_timings_fit_fields(t),
        },
    ensures
        spec_parse_timeslot(spec_timeslot_bytes(r)) == r,
{
    match r {
        TschTimeslotRepr::Default(id) => {},
        TschTimeslotRepr::Custom(t) => {
            lemma_timings_roundtrip(t);
            lemma_le_bytes_len(t.max_tx.0 as u64, 3);
            lemma_le_bytes_len(t.timeslot_length.0 as u64, 3);
        },
    }
}

/// The link options of `r` hold known flags only.
pub open spec fn spec_link_fits(r: LinkInformationRepr) -> bool {
    r.link_options.0.spec_bits() < 32
}

/// Reading back a Link Information written gives it back, when its options
/// hold known flags only.
pub proof fn lemma_link_roundtrip(r: LinkInformationRepr, b: Seq<u8>)
    requires
        spec_link_fits(r),
        b.len() >= 5,
        b.subrange(0, 5) == spec_link_bytes(r),
    ensures
        spec_link_matches(r, b),
{
    assert(b[0] == b.subrange(0, 5)[0] && b[1] == b.subrange(0, 5)[1]);
    assert(b[2] == b.subrange(0, 5)[2] && b[3] == b.subrange(0, 5)[3] && b[4] == b.subrange(0, 5)[4]);
    lemma_le16_split(r.timeslot);
    lemma_le16_split(r.channel_offset);
    let x = r.link_options.0.spec_bits();
    assert(x < 32 ==> x & 0x1f == x) by (bit_vector);
}

/// The `i`-th link of a written list stands at `5 * i`.
proof fn lemma_links_at(s: Seq<LinkInformationRepr>, i: int)
    requires
        0 <= i < s.len(),
    ensures
        spec_links_bytes(s).len() == 5 * s.len(),
        spec_links_bytes(s).subrange(5 * i, 5 * i + 5) == spec_link_bytes(s[i]),
    decreases s.len(),
{
    lemma_links_bytes_len(s);
    lemma_links_bytes_len(s.drop_last());
    if i < s.len() - 1 {
        lemma_links_at(s.drop_last(), i);
        assert(spec_links_bytes(s).subrange(5 * i, 5 * i + 5) =~= spec_links_bytes(s.drop_last()).subrange(5 * i, 5 * i + 5));
    } else {
        assert(spec_links_bytes(s).subrange(5 * i, 5 * i + 5) =~= spec_link_bytes(s.last()));
    }
}

/// A Slotframe Descriptor fits what it is read back as: at most four links,
/// each with known flags only.
pub open spec fn spec_descriptor_fits(r: SlotframeDescriptorRepr) -> bool {
    &&& links_of(r.links).len() <= 4
    &&& forall|i: int| 0 <= i < links_of(r.links).len() ==> spec_link_fits(#[trigger] links_of(r.links)[i])
}

/// Reading back a Slotframe Descriptor written gives it back.
pub proof fn lemma_descriptor_roundtrip(r: SlotframeDescriptorRepr, rest: Seq<u8>)
    requires
        spec_descriptor_fits(r),
    ensures
        spec_descriptor_matches(r, spec_descriptor_bytes(r.handle, r.size, links_of(r.links)) + rest),
{
    let links = links_of(r.links);
    let b = spec_descriptor_bytes(r.handle, r.size, links) + rest;
    lemma_links_bytes_len(links);
    assert(b[0] == r.handle);
    lemma_le16_split(r.size);
    assert(b[1] == le2(r.size)[0] && b[2] == le2(r.size)[1]);
    assert(b[3] == links.len() as u8);
    assert forall|i: int| 0 <= i < links.len() implies spec_link_matches(#[trigger] links[i], spec_link_at(b, i)) by {
        lemma_links_at(links, i);
        assert(spec_link_at(b, i).subrange(0, 5) =~= spec_links_bytes(links).subrange(5 * i, 5 * i + 5));
        lemma_link_roundtrip(links[i], spec_link_at(b, i));
    }
}

/// The first `j` descriptors of a written list are written first.
proof fn lemma_descriptors_prefix(s: Seq<SlotframeDescriptorRepr>, j: int)
    requires
        0 <= j <= s.len(),
    ensures
        spec_descriptors_len(s.take(j)) <= spec_descriptors_bytes(s).len(),
        spec_descriptors_bytes(s).subrange(0, spec_descriptors_len(s.take(j)) as int) == spec_descriptors_bytes(s.take(j)),
    decreases s.len(),
{
    lemma_descriptors_bytes_len(s);
    lemma_descriptors_bytes_len(s.take(j));
    if j == s.len() {
        assert(s.take(j) =~= s);
        assert(spec_descriptors_bytes(s).subrange(0, spec_descriptors_len(s) as int) =~= spec_descriptors_bytes(s));
    } else {
        lemma_descriptors_prefix(s.drop_last(), j);
        assert(s.drop_last().take(j) =~= s.take(j));
        lemma_descriptors_bytes_len(s.drop_last());
        assert(spec_descriptors_bytes(s).subrange(0, spec_descriptors_len(s.take(j)) as int)
            =~= spec_descriptors_bytes(s.drop_last()).subrange(0, spec_descriptors_len(s.take(j)) as int));
    }
}

/// The `k`-th descriptor of a written list stands at the length of the
/// ones before it.
proof fn lemma_descriptor_at(s: Seq<SlotframeDescriptorRepr>, k: int)
    requires
        0 <= k < s.len(),
    ensures
        spec_descriptors_len(s.take(k + 1)) == spec_descriptors_len(s.take(k)) + 4 + 5 * links_of(s[k].links).len(),
        spec_descriptors_len(s.take(k + 1)) <= spec_descriptors_bytes(s).len(),
        spec_descriptors_bytes(s).subrange(spec_descriptors_len(s.take(k)) as int, spec_descriptors_len(s.take(k + 1)) as int)
            == spec_descriptor_bytes(s[k].handle, s[k].size, links_of(s[k].links)),
{
    lemma_descriptors_prefix(s, k + 1);
    assert(s.take(k + 1).drop_last() =~= s.take(k));
    lemma_descriptors_bytes_len(s.take(k));
    lemma_descriptors_bytes_len(s.take(k + 1));
    let a = spec_descriptors_len(s.take(k)) as int;
    let c = spec_descriptors_len(s.take(k + 1)) as int;
    assert(spec_descriptors_bytes(s).subrange(a, c) =~= spec_descriptors_bytes(s.take(k + 1)).subrange(a, c));
    assert(spec_descriptors_bytes(s.take(k + 1)).subrange(a, c)
        =~= spec_descriptor_bytes(s[k].handle, s[k].size, links_of(s[k].links)));
}

/// Every descriptor of the list fits what it is read back as.
pub open spec fn spec_descriptors_fit(s: Seq<SlotframeDescriptorRepr>) -> bool {
    forall|i: int| 0 <= i < s.len() ==> spec_descriptor_fits(#[trigger] s[i])
}

/// The offsets read from a written list of descriptors, from the `k`-th
/// one on, are where they were written.
#[verifier::spinoff_prover]
#[verifier::rlimit(40)]
proof fn lemma_sd_offsets(s: Seq<SlotframeDescriptorRepr>, k: int)
    requires
        0 <= k <= s.len(),
        spec_descriptors_fit(s),
    ensures
        ({
            let offs = spec_sd_offsets(spec_descriptors_bytes(s), spec_descriptors_len(s.take(k)) as int, (s.len() - k) as nat);
            &&& offs.len() == s.len() - k
            &&& forall|j: int| 0 <= j < offs.len() ==> #[trigger] offs[j] == spec_descriptors_len(s.take(k + j)) as int
        }),
    decreases s.len() - k,
{
    let d = spec_descriptors_bytes(s);
    let o = spec_descriptors_len(s.take(k)) as int;
    if k < s.len() {
        lemma_descriptor_at(s, k);
        assert(spec_descriptor_fits(s[k]));
        let links = links_of(s[k].links);
        lemma_links_bytes_len(links);
        let sd = spec_descriptor_bytes(s[k].handle, s[k].size, links);
        assert(d[o + 3] == d.subrange(o, o + sd.len())[3]);
        assert(d[o + 3] == links.len() as u8);
        lemma_sd_offsets(s, k + 1);
        let offs = spec_sd_offsets(d, o, (s.len() - k) as nat);
        let next = spec_sd_offsets(d, spec_descriptors_len(s.take(k + 1)) as int, (s.len() - k - 1) as nat);
        assert(offs =~= seq![o] + next);
        assert forall|j: int| 0 <= j < offs.len() implies #[trigger] offs[j] == spec_descriptors_len(s.take(k + j)) as int by {
            if j > 0 {
                assert(offs[j] == next[j - 1]);
            }
        }
    } else {
        lemma_descriptors_bytes_len(s);
    }
}

/// Reading back a written list of at most three Slotframe Descriptors,
/// each fitting what it is read back as, gives the list back.
pub proof fn lemma_slotframes_roundtrip(s: Seq<SlotframeDescriptorRepr>)
    requires
        s.len() <= 3,
        spec_descriptors_fit(s),
    ensures
        spec_slotframes_match(s, spec_descriptors_bytes(s), s.len() as u8),
{
    let d = spec_descriptors_bytes(s);
    lemma_sd_offsets(s, 0);
    assert(s.take(0) =~= Seq::<SlotframeDescriptorRepr>::empty());
    let offs = spec_sd_offsets(d, 0, s.len() as nat);
    assert forall|i: int| 0 <= i < s.len() implies spec_descriptor_matches(#[trigger] s[i], d.subrange(offs[i], d.len() as int)) by {
        assert(offs[i] == spec_descriptors_len(s.take(0 + i)) as int);
        assert(s.take(0 + i) == s.take(i));
        lemma_descriptor_at(s, i);
        let a = spec_descriptors_len(s.take(i)) as int;
        let c = spec_descriptors_len(s.take(i + 1)) as int;
        let sd = spec_descriptor_bytes(s[i].handle, s[i].size, links_of(s[i].links));
        assert(d.subrange(a, d.len() as int) =~= sd + d.subrange(c, d.len() as int));
        lemma_descriptor_roundtrip(s[i], d.subrange(c, d.len() as int));
    }
}

/// A list of descriptors, each with at most four links, is written in at
/// most 24 octets per descriptor.
proof fn lemma_descriptors_len_bound(s: Seq<SlotframeDescriptorRepr>)
    requires
        spec_descriptors_fit(s),
    ensures
        spec_descriptors_len(s) <= 24 * s.len(),
    decreases s.len(),
{
    if s.len() > 0 {
        assert(spec_descriptors_fit(s.drop_last())) by {
            assert forall|i: int| 0 <= i < s.drop_last().len() implies spec_descriptor_fits(#[trigger] s.drop_last()[i]) by {
                assert(s.drop_last()[i] == s[i]);
            }
        }
        lemma_descriptors_len_bound(s.drop_last());
        assert(spec_descriptor_fits(s[s.len() - 1]));
    }
}

/// A nested IE representation fits what it is read back as: an absolute
/// slot number in five octets, the default timeslot template or timings
/// whose durations fit their fields, at most three Slotframe Descriptors
/// each fitting what it is read back as.
pub open spec fn spec_nested_fits(r: NestedInformationElementRepr) -> bool {
    match r {
        NestedInformationElementRepr::TschSynchronization(s) => s.absolute_slot_number < 0x100_0000_0000,
        NestedInformationElementRepr::TschTimeslot(t) => match t {
            TschTimeslotRepr::Default(id) => id == 0,
            TschTimeslotRepr::Custom(timings) => spec_timings_fit_fields(timings),
        },
        NestedInformationElementRepr::TschSlotframeAndLink(x) => {
            &&& descriptors_of(x.slotframe_descriptors).len() <= 3
            &&& spec_descriptors_fit(descriptors_of(x.slotframe_descriptors))
        },
        NestedInformationElementRepr::ChannelHopping(_) => true,
    }
}

/// Reading back a nested Information Element written from a representation
/// that fits what it is read back as accepts it and gives the
/// representation back, whatever follows it.
#[verifier::spinoff_prover]
#[verifier::rlimit(40)]
pub proof fn lemma_nested_roundtrip(r: NestedInformationElementRepr, rest: Seq<u8>)
    requires
        spec_nested_fits(r),
    ensures
        spec_nested_ok(spec_nested_repr_bytes(r) + rest),
        spec_nested_matches(r, spec_nested_repr_bytes(r) + rest),
        ({
            let b = spec_nested_repr_bytes(r) + rest;
            nie_len(b[0], b[1]) == spec_nested_inner_bytes(r).len()
        }),
        spec_nested_repr_bytes(r).len() == 2 + spec_nested_inner_bytes(r).len(),
{
    let inner = spec_nested_inner_bytes(r);
    let id = spec_nested_repr_sub_id(r);
    match r {
        NestedInformationElementRepr::TschSlotframeAndLink(x) => {
            let ds = descriptors_of(x.slotframe_descriptors);
            lemma_descriptors_len_bound(ds);
            lemma_descriptors_bytes_len(ds);
        },
        NestedInformationElementRepr::TschTimeslot(t) => {
            match t {
                TschTimeslotRepr::Custom(timings) => {
                    lemma_le_bytes_len(timings.max_tx.0 as u64, 3);
                    lemma_le_bytes_len(timings.timeslot_length.0 as u64, 3);
                },
                _ => {},
            }
        },
        NestedInformationElementRepr::TschSynchronization(s) => {
            lemma_le_bytes_len(s.absolute_slot_number, 5);
        },
        _ => {},
    }
    assert(inner.len() <= 0xff);
    let b = spec_nested_repr_bytes(r) + rest;
    let w = spec_nested_word(inner.len() as u16, id);
    assert(b =~= le2(w) + (inner + rest));
    lemma_nested_header_roundtrip(inner.len() as u16, id, inner + rest);
    let c = spec_nested_content(b);
    assert(c =~= inner);
    match r {
        NestedInformationElementRepr::TschSynchronization(s) => {
            assert(c =~= spec_tsch_sync_bytes(s) + Seq::<u8>::empty());
            lemma_tsch_sync_roundtrip(s, Seq::<u8>::empty());
        },
        NestedInformationElementRepr::TschTimeslot(t) => {
            lemma_timeslot_roundtrip(t);
        },
        NestedInformationElementRepr::TschSlotframeAndLink(x) => {
            let ds = descriptors_of(x.slotframe_descriptors);
            lemma_slotframes_roundtrip(ds);
            assert(c.skip(1) =~= spec_descriptors_bytes(ds));
        },
        NestedInformationElementRepr::ChannelHopping(h) => {},
    }
}

/// Every nested IE representation of the list fits what it is read back
/// as.
pub open spec fn spec_nested_list_fits(s: Seq<NestedInformationElementRepr>) -> bool {
    forall|i: int| 0 <= i < s.len() ==> spec_nested_fits(#[trigger] s[i])
}

/// The first `j` elements of a written list are written first.
proof fn lemma_nested_list_prefix_bytes(s: Seq<NestedInformationElementRepr>, j: int)
    requires
        0 <= j <= s.len(),
    ensures
        spec_nested_list_bytes(s.take(j)).len() <= spec_nested_list_bytes(s).len(),
        spec_nested_list_bytes(s).subrange(0, spec_nested_list_bytes(s.take(j)).len() as int) == spec_nested_list_bytes(s.take(j)),
    decreases s.len(),
{
    if j == s.len() {
        assert(s.take(j) =~= s);
        assert(spec_nested_list_bytes(s).subrange(0, spec_nested_list_bytes(s).len() as int) =~= spec_nested_list_bytes(s));
    } else {
        lemma_nested_list_prefix_bytes(s.drop_last(), j);
        assert(s.drop_last().take(j) =~= s.take(j));
        let n = spec_nested_list_bytes(s.take(j)).len() as int;
        assert(spec_nested_list_bytes(s).subrange(0, n) =~= spec_nested_list_bytes(s.drop_last()).subrange(0, n));
    }
}

/// The `k`-th element of a written list stands after the ones before it.
proof fn lemma_nested_list_at(s: Seq<NestedInformationElementRepr>, k: int)
    requires
        0 <= k < s.len(),
    ensures
        spec_nested_list_bytes(s.take(k + 1)) == spec_nested_list_bytes(s.take(k)) + spec_nested_repr_bytes(s[k]),
        spec_nested_list_bytes(s.take(k + 1)).len() <= spec_nested_list_bytes(s).len(),
        spec_nested_list_bytes(s).subrange(spec_nested_list_bytes(s.take(k)).len() as int, spec_nested_list_bytes(s).len() as int)
            == spec_nested_repr_bytes(s[k]) + spec_nested_list_bytes(s).subrange(
                spec_nested_list_bytes(s.take(k + 1)).len() as int,
                spec_nested_list_bytes(s).len() as int,
            ),
{
    assert(s.take(k + 1).drop_last() =~= s.take(k));
    lemma_nested_list_prefix_bytes(s, k + 1);
    let c = spec_nested_list_bytes(s);
    let a = spec_nested_list_bytes(s.take(k)).len() as int;
    let e = spec_nested_list_bytes(s.take(k + 1)).len() as int;
    assert(c.subrange(a, e) =~= spec_nested_list_bytes(s.take(k + 1)).subrange(a, e));
    assert(spec_nested_list_bytes(s.take(k + 1)).subrange(a, e) =~= spec_nested_repr_bytes(s[k]));
    assert(c.subrange(a, c.len() as int) =~= c.subrange(a, e) + c.subrange(e, c.len() as int));
}

/// The nested IEs read from a written list, from the `k`-th one on, are
/// the ones written.
#[verifier::spinoff_prover]
#[verifier::rlimit(40)]
proof fn lemma_nested_ies_of_list(s: Seq<NestedInformationElementRepr>, k: int)
    requires
        0 <= k < s.len(),
        spec_nested_list_fits(s),
    ensures
        ({
            let c = spec_nested_list_bytes(s);
            let ies = spec_nested_ies(c, spec_nested_list_bytes(s.take(k)).len() as int, false);
            &&& ies.len() == s.len() - k
            &&& forall|j: int| 0 <= j < ies.len() ==> #[trigger] ies[j] == c.subrange(
                spec_nested_list_bytes(s.take(k + j)).len() as int,
                c.len() as int,
            )
        }),
    decreases s.len() - k,
{
    let c = spec_nested_list_bytes(s);
    let o = spec_nested_list_bytes(s.take(k)).len() as int;
    let next = spec_nested_list_bytes(s.take(k + 1)).len() as int;
    lemma_nested_list_at(s, k);
    assert(spec_nested_fits(s[k]));
    let tail = c.subrange(next, c.len() as int);
    lemma_nested_roundtrip(s[k], tail);
    assert(c.subrange(o, c.len() as int) == spec_nested_repr_bytes(s[k]) + tail);
    assert(c[o] == c.subrange(o, c.len() as int)[0] && c[o + 1] == c.subrange(o, c.len() as int)[1]);
    assert(nested_step(c, o) == Some((next, next >= c.len())));
    if k + 1 < s.len() {
        lemma_nested_list_at(s, k + 1);
        lemma_nested_roundtrip(s[k + 1], c.subrange(spec_nested_list_bytes(s.take(k + 2)).len() as int, c.len() as int));
        assert(next < c.len());
        lemma_nested_ies_of_list(s, k + 1);
        let ies = spec_nested_ies(c, o, false);
        let rest = spec_nested_ies(c, next, false);
        assert(ies =~= seq![c.subrange(o, c.len() as int)] + rest);
        assert forall|j: int| 0 <= j < ies.len() implies #[trigger] ies[j] == c.subrange(
            spec_nested_list_bytes(s.take(k + j)).len() as int,
            c.len() as int,
        ) by {
            if j > 0 {
                assert(ies[j] == rest[j - 1]);
                assert(k + 1 + (j - 1) == k + j);
            }
        }
    } else {
        assert(s.take(k + 1) =~= s);
        assert(next == c.len());
    }
}

/// An MLME Payload IE representation fits what it is read back as: at most
/// sixteen nested IEs, each fitting what it is read back as, in a content
/// of at most 2047 octets.
pub open spec fn spec_payload_fits(r: PayloadInformationElementRepr) -> bool {
    &&& r matches PayloadInformationElementRepr::Mlme(l)
    &&& nested_of(l).len() <= 16
    &&& spec_nested_list_fits(nested_of(l))
    &&& spec_payload_inner_bytes(r).len() <= 0x7ff
}

/// Reading back an MLME Payload IE written from a representation that fits
/// what it is read back as: its nested IEs hold their contents, it is
/// accepted, and it gives the representation back, whatever follows it.
#[verifier::spinoff_prover]
#[verifier::rlimit(40)]
pub proof fn lemma_payload_roundtrip(r: PayloadInformationElementRepr, rest: Seq<u8>)
    requires
        spec_payload_fits(r),
    ensures
        ({
            let b = spec_payload_repr_bytes(r) + rest;
            &&& pie_group_id(b[0], b[1]) is Mlme
            &&& pie_len(b[0], b[1]) == spec_payload_inner_bytes(r).len()
            &&& spec_nested_ies_fit(spec_payload_nested(b))
            &&& spec_payload_ok(b)
            &&& spec_payload_matches(r, b)
        }),
{
    let s = match r {
        PayloadInformationElementRepr::Mlme(l) => nested_of(l),
        PayloadInformationElementRepr::PayloadTermination => Seq::empty(),
    };
    let c = spec_nested_list_bytes(s);
    let len = c.len() as u16;
    let w = spec_payload_word(len, PayloadGroupId::Mlme);
    let b = spec_payload_repr_bytes(r) + rest;
    assert(b =~= le2(w) + (c + rest));
    lemma_le16_split(w);
    assert(b[0] == (w & 0xff) as u8 && b[1] == (w >> 8u16) as u8);
    assert(len <= 0x7ff ==> ({
        let w2 = (((0u16 & !0b0000_0111_1111_1111u16) | (len & 0b0000_0111_1111_1111)) & !0b0111_1000_0000_0000u16)
            | (1u16 << 11u16) | 0b1000_0000_0000_0000;
        &&& w2 & 0b111_1111_1111 == len
        &&& (w2 >> 11u16) & 0b1111 == 1
    })) by (bit_vector);
    assert(spec_payload_content(b) =~= c);
    let ies = spec_payload_nested(b);
    if s.len() == 0 {
        assert(c.len() == 0);
        assert(ies =~= Seq::<Seq<u8>>::empty());
    } else {
        lemma_nested_ies_of_list(s, 0);
        assert(s.take(0) =~= Seq::<NestedInformationElementRepr>::empty());
        lemma_nested_list_at(s, 0);
        lemma_nested_roundtrip(s[0], c.subrange(spec_nested_list_bytes(s.take(1)).len() as int, c.len() as int));
        assert(c.len() > 0);
        assert forall|i: int| 0 <= i < ies.len() implies {
            &&& #[trigger] ies[i].len() >= 2 + nie_len(ies[i][0], ies[i][1])
            &&& spec_nested_ok(ies[i])
            &&& spec_nested_matches(s[i], ies[i])
        } by {
            assert(ies[i] == c.subrange(spec_nested_list_bytes(s.take(0 + i)).len() as int, c.len() as int));
            assert(s.take(0 + i) == s.take(i));
            lemma_nested_list_at(s, i);
            let tail = c.subrange(spec_nested_list_bytes(s.take(i + 1)).len() as int, c.len() as int);
            lemma_nested_roundtrip(s[i], tail);
        }
    }
}

/// A Header IE representation that a list of Information Elements holds
/// and reads back: a Time Correction that fits its 12-bit field.
pub open spec fn spec_header_fits_list(r: HeaderInformationElementRepr) -> bool {
    r matches HeaderInformationElementRepr::TimeCorrection(tc) && -2048 <= tc.time_correction.0 < 2048
}

/// Reading back a Header IE written, whatever follows it: it holds its
/// content and parses as written; its length and ID read back.
proof fn lemma_header_tail(r: HeaderInformationElementRepr, tail: Seq<u8>)
    requires
        spec_header_fits_list(r) || r is HeaderTermination1,
    ensures
        ({
            let b = spec_header_repr_bytes(r) + tail;
            &&& spec_header_fits(b)
            &&& spec_parse_header_ie(b) == Some(r)
            &&& hie_len(b[0], b[1]) == spec_header_repr_inner_len(r)
            &&& (hie_id(b[0], b[1]) is HeaderTermination1 <==> r is HeaderTermination1)
            &&& !(hie_id(b[0], b[1]) is HeaderTermination2)
        }),
        spec_header_repr_bytes(r).len() == 2 + spec_header_repr_inner_len(r),
{
    let x = spec_header_repr_bytes(r);
    let b = x + tail;
    lemma_header_ie_roundtrip(r);
    assert(b[0] == x[0] && b[1] == x[1]);
    assert(b.subrange(2, 2 + hie_len(b[0], b[1]) as int) =~= x.subrange(2, 2 + hie_len(x[0], x[1]) as int));
}

/// The Header IEs written before Payload IEs: the given ones and a Header
/// Termination 1 when Payload IEs follow.
pub open spec fn spec_headers_written(hs: Seq<HeaderInformationElementRepr>, has_payloads: bool) -> Seq<HeaderInformationElementRepr> {
    if has_payloads { hs.push(HeaderInformationElementRepr::HeaderTermination1) } else { hs }
}

/// Every element of the list is a Header IE that reads back, the last
/// possibly a Header Termination 1.
spec fn spec_headers_ok(s: Seq<HeaderInformationElementRepr>) -> bool {
    forall|i: int| 0 <= i < s.len() ==> (spec_header_fits_list(#[trigger] s[i]) || (s[i] is HeaderTermination1 && i == s.len() - 1))
}

/// The first `j` Header IEs of a written list are written first.
proof fn lemma_header_list_prefix_bytes(s: Seq<HeaderInformationElementRepr>, j: int)
    requires
        0 <= j <= s.len(),
    ensures
        spec_header_list_bytes(s.take(j)).len() <= spec_header_list_bytes(s).len(),
        spec_header_list_bytes(s).subrange(0, spec_header_list_bytes(s.take(j)).len() as int) == spec_header_list_bytes(s.take(j)),
    decreases s.len(),
{
    if j == s.len() {
        assert(s.take(j) =~= s);
        assert(spec_header_list_bytes(s).subrange(0, spec_header_list_bytes(s).len() as int) =~= spec_header_list_bytes(s));
    } else {
        lemma_header_list_prefix_bytes(s.drop_last(), j);
        assert(s.drop_last().take(j) =~= s.take(j));
        let n = spec_header_list_bytes(s.take(j)).len() as int;
        assert(spec_header_list_bytes(s).subrange(0, n) =~= spec_header_list_bytes(s.drop_last()).subrange(0, n));
    }
}

/// The `k`-th Header IE of a written list stands after the ones before it.
proof fn lemma_header_list_at(s: Seq<HeaderInformationElementRepr>, k: int, rest: Seq<u8>)
    requires
        0 <= k < s.len(),
    ensures
        spec_header_list_bytes(s.take(k + 1)) == spec_header_list_bytes(s.take(k)) + spec_header_repr_bytes(s[k]),
        spec_header_list_bytes(s.take(k + 1)).len() <= spec_header_list_bytes(s).len(),
        ({
            let d = spec_header_list_bytes(s) + rest;
            let a = spec_header_list_bytes(s.take(k)).len() as int;
            let e = spec_header_list_bytes(s.take(k + 1)).len() as int;
            d.subrange(a, d.len() as int) == spec_header_repr_bytes(s[k]) + d.subrange(e, d.len() as int)
        }),
{
    assert(s.take(k + 1).drop_last() =~= s.take(k));
    lemma_header_list_prefix_bytes(s, k + 1);
    let c = spec_header_list_bytes(s);
    let d = c + rest;
    let a = spec_header_list_bytes(s.take(k)).len() as int;
    let e = spec_header_list_bytes(s.take(k + 1)).len() as int;
    assert(d.subrange(a, e) =~= spec_header_list_bytes(s.take(k + 1)).subrange(a, e));
    assert(spec_header_list_bytes(s.take(k + 1)).subrange(a, e) =~= spec_header_repr_bytes(s[k]));
    assert(d.subrange(a, d.len() as int) =~= d.subrange(a, e) + d.subrange(e, d.len() as int));
}

/// The Header IEs read from a written list followed by `rest`, from the
/// `k`-th one on, are the ones written, and their iteration ends after
/// them: after a Header Termination 1, or at the end of the data when
/// nothing follows.
#[verifier::spinoff_prover]
#[verifier::rlimit(40)]
proof fn lemma_header_ies_of_list(s: Seq<HeaderInformationElementRepr>, rest: Seq<u8>, k: int)
    requires
        0 <= k < s.len(),
        spec_headers_ok(s),
        s.last() is HeaderTermination1 || rest.len() == 0,
    ensures
        ({
            let d = spec_header_list_bytes(s) + rest;
            let o = spec_header_list_bytes(s.take(k)).len() as int;
            let ies = spec_header_ies(d, o, false);
            &&& ies.len() == s.len() - k
            &&& forall|j: int| 0 <= j < ies.len() ==> #[trigger] ies[j] == d.subrange(
                spec_header_list_bytes(s.take(k + j)).len() as int,
                d.len() as int,
            )
            &&& header_end(d, o, false) == spec_header_list_bytes(s).len()
        }),
    decreases s.len() - k,
{
    let c = spec_header_list_bytes(s);
    let d = c + rest;
    let o = spec_header_list_bytes(s.take(k)).len() as int;
    let next = spec_header_list_bytes(s.take(k + 1)).len() as int;
    lemma_header_list_at(s, k, rest);
    let tail = d.subrange(next, d.len() as int);
    lemma_header_tail(s[k], tail);
    assert(d[o] == d.subrange(o, d.len() as int)[0] && d[o + 1] == d.subrange(o, d.len() as int)[1]);
    if k + 1 < s.len() {
        lemma_header_list_at(s, k + 1, rest);
        lemma_header_tail(s[k + 1], d.subrange(spec_header_list_bytes(s.take(k + 2)).len() as int, d.len() as int));
        assert(next < d.len());
        assert(!(s[k] is HeaderTermination1));
        assert(header_step(d, o) == Some((next, false)));
        lemma_header_ies_of_list(s, rest, k + 1);
        let ies = spec_header_ies(d, o, false);
        let more = spec_header_ies(d, next, false);
        assert(ies =~= seq![d.subrange(o, d.len() as int)] + more);
        assert forall|j: int| 0 <= j < ies.len() implies #[trigger] ies[j] == d.subrange(
            spec_header_list_bytes(s.take(k + j)).len() as int,
            d.len() as int,
        ) by {
            if j > 0 {
                assert(ies[j] == more[j - 1]);
                assert(k + 1 + (j - 1) == k + j);
            }
        }
    } else {
        assert(s.take(k + 1) =~= s);
        assert(next == c.len());
        assert(header_step(d, o) == Some((next, true)));
    }
}

/// The octets of a list of Header IEs that read back: at most four per
/// element.
proof fn lemma_header_list_len(s: Seq<HeaderInformationElementRepr>)
    ensures
        spec_header_list_bytes(s).len() <= 4 * s.len(),
    decreases s.len(),
{
    if s.len() > 0 {
        lemma_header_list_len(s.drop_last());
    }
}

/// The first `j` Payload IEs of a written list are written first.
proof fn lemma_payload_list_prefix_bytes(s: Seq<PayloadInformationElementRepr>, j: int)
    requires
        0 <= j <= s.len(),
    ensures
        spec_payload_list_bytes(s.take(j)).len() <= spec_payload_list_bytes(s).len(),
        spec_payload_list_bytes(s).subrange(0, spec_payload_list_bytes(s.take(j)).len() as int) == spec_payload_list_bytes(s.take(j)),
    decreases s.len(),
{
    if j == s.len() {
        assert(s.take(j) =~= s);
        assert(spec_payload_list_bytes(s).subrange(0, spec_payload_list_bytes(s).len() as int) =~= spec_payload_list_bytes(s));
    } else {
        lemma_payload_list_prefix_bytes(s.drop_last(), j);
        assert(s.drop_last().take(j) =~= s.take(j));
        let n = spec_payload_list_bytes(s.take(j)).len() as int;
        assert(spec_payload_list_bytes(s).subrange(0, n) =~= spec_payload_list_bytes(s.drop_last()).subrange(0, n));
    }
}

/// The `k`-th Payload IE of a written list stands after the ones before it.
proof fn lemma_payload_list_at(s: Seq<PayloadInformationElementRepr>, k: int)
    requires
        0 <= k < s.len(),
    ensures
        spec_payload_list_bytes(s.take(k + 1)) == spec_payload_list_bytes(s.take(k)) + spec_payload_repr_bytes(s[k]),
        spec_payload_list_bytes(s.take(k + 1)).len() <= spec_payload_list_bytes(s).len(),
        ({
            let d = spec_payload_list_bytes(s);
            let a = spec_payload_list_bytes(s.take(k)).len() as int;
            let e = spec_payload_list_bytes(s.take(k + 1)).len() as int;
            d.subrange(a, d.len() as int) == spec_payload_repr_bytes(s[k]) + d.subrange(e, d.len() as int)
        }),
{
    assert(s.take(k + 1).drop_last() =~= s.take(k));
    lemma_payload_list_prefix_bytes(s, k + 1);
    let d = spec_payload_list_bytes(s);
    let a = spec_payload_list_bytes(s.take(k)).len() as int;
    let e = spec_payload_list_bytes(s.take(k + 1)).len() as int;
    assert(d.subrange(a, e) =~= spec_payload_list_bytes(s.take(k + 1)).subrange(a, e));
    assert(spec_payload_list_bytes(s.take(k + 1)).subrange(a, e) =~= spec_payload_repr_bytes(s[k]));
    assert(d.subrange(a, d.len() as int) =~= d.subrange(a, e) + d.subrange(e, d.len() as int));
}

/// Every Payload IE representation of the list fits what it is read back
/// as.
pub open spec fn spec_payload_list_fits(s: Seq<PayloadInformationElementRepr>) -> bool {
    forall|i: int| 0 <= i < s.len() ==> spec_payload_fits(#[trigger] s[i])
}

/// The Payload IEs read from a written list, from the `k`-th one on, are
/// the ones written, and their iteration ends at the end of the list.
#[verifier::spinoff_prover]
#[verifier::rlimit(40)]
proof fn lemma_payload_ies_of_list(s: Seq<PayloadInformationElementRepr>, k: int)
    requires
        0 <= k < s.len(),
        spec_payload_list_fits(s),
    ensures
        ({
            let d = spec_payload_list_bytes(s);
            let o = spec_payload_list_bytes(s.take(k)).len() as int;
            let ies = spec_payload_ies(d, o, false);
            &&& ies.len() == s.len() - k
            &&& forall|j: int| 0 <= j < ies.len() ==> #[trigger] ies[j] == d.subrange(
                spec_payload_list_bytes(s.take(k + j)).len() as int,
                d.len() as int,
            )
            &&& payload_end(d, o, false) == d.len()
        }),
    decreases s.len() - k,
{
    let d = spec_payload_list_bytes(s);
    let o = spec_payload_list_bytes(s.take(k)).len() as int;
    let next = spec_payload_list_bytes(s.take(k + 1)).len() as int;
    lemma_payload_list_at(s, k);
    assert(spec_payload_fits(s[k]));
    let tail = d.subrange(next, d.len() as int);
    lemma_payload_roundtrip(s[k], tail);
    assert(d[o] == d.subrange(o, d.len() as int)[0] && d[o + 1] == d.subrange(o, d.len() as int)[1]);
    if k + 1 < s.len() {
        lemma_payload_list_at(s, k + 1);
        assert(spec_payload_fits(s[k + 1]));
        assert(spec_payload_repr_bytes(s[k + 1]).len() >= 2);
        assert(next < d.len());
        assert(payload_step(d, o) == Some((next, false)));
        lemma_payload_ies_of_list(s, k + 1);
        let ies = spec_payload_ies(d, o, false);
        let more = spec_payload_ies(d, next, false);
        assert(ies =~= seq![d.subrange(o, d.len() as int)] + more);
        assert forall|j: int| 0 <= j < ies.len() implies #[trigger] ies[j] == d.subrange(
            spec_payload_list_bytes(s.take(k + j)).len() as int,
            d.len() as int,
        ) by {
            if j > 0 {
                assert(ies[j] == more[j - 1]);
                assert(k + 1 + (j - 1) == k + j);
            }
        }
    } else {
        assert(s.take(k + 1) =~= s);
        assert(next == d.len());
        assert(payload_step(d, o) == Some((next, true)));
    }
}

/// The octets of a list of Payload IEs that read back: at most 2049 per
/// element.
proof fn lemma_payload_list_len(s: Seq<PayloadInformationElementRepr>)
    requires
        spec_payload_list_fits(s),
    ensures
        spec_payload_list_bytes(s).len() <= 2049 * s.len(),
    decreases s.len(),
{
    if s.len() > 0 {
        assert(spec_payload_list_fits(s.drop_last())) by {
            assert forall|i: int| 0 <= i < s.drop_last().len() implies spec_payload_fits(#[trigger] s.drop_last()[i]) by {
                assert(s.drop_last()[i] == s[i]);
            }
        }
        lemma_payload_list_len(s.drop_last());
        assert(spec_payload_fits(s[s.len() - 1]));
    }
}

/// Information Elements representations that read back as themselves: at
/// most fifteen Time Correction Header IEs that fit their field and at
/// most sixteen MLME Payload IEs that fit what they are read back as.
pub open spec fn spec_ies_fit(r: InformationElementsRepr) -> bool {
    let hs = header_ies_of(r.header_information_elements);
    let ps = payload_ies_of(r.payload_information_elements);
    &&& hs.len() <= 15
    &&& forall|i: int| 0 <= i < hs.len() ==> spec_header_fits_list(#[trigger] hs[i])
    &&& ps.len() <= 16
    &&& spec_payload_list_fits(ps)
}

/// Reading back Information Elements written at the end of a frame (no
/// payload follows): they hold their contents and are accepted; the Header
/// IEs read are the ones written, followed by a Header Termination 1 when
/// Payload IEs follow, the Payload IEs read are the ones written, and the
/// elements span the whole data.
#[verifier::spinoff_prover]
#[verifier::rlimit(40)]
pub proof fn lemma_ies_roundtrip(r: InformationElementsRepr)
    requires
        spec_ies_fit(r),
    ensures
        ({
            let d = spec_ies_written(r, false);
            let hs = spec_ie_headers(d);
            let ps = spec_ie_payloads(d);
            let rh = header_ies_of(r.header_information_elements);
            let rp = payload_ies_of(r.payload_information_elements);
            let wh = spec_headers_written(rh, rp.len() > 0);
            &&& spec_ies_parse_safe(d)
            &&& spec_ies_parse_ok(d)
            &&& spec_headers_end(d) <= d.len()
            &&& spec_ies_len(d) == d.len()
            &&& hs.len() == wh.len()
            &&& forall|i: int| 0 <= i < hs.len() ==> spec_parse_header_ie(#[trigger] hs[i]) == Some(wh[i])
            &&& ps.len() == rp.len()
            &&& forall|i: int| 0 <= i < ps.len() ==> spec_payload_matches(rp[i], #[trigger] ps[i])
        }),
{
    let rh = header_ies_of(r.header_information_elements);
    let rp = payload_ies_of(r.payload_information_elements);
    let has_p = rp.len() > 0;
    let wh = spec_headers_written(rh, has_p);
    let hb = spec_header_list_bytes(wh);
    let pb = spec_payload_list_bytes(rp);
    let d = spec_ies_written(r, false);
    if has_p {
        assert(wh.drop_last() =~= rh);
    }
    assert(d =~= hb + pb);
    assert(spec_headers_ok(wh));
    lemma_header_list_len(wh);
    lemma_payload_list_len(rp);
    let hs = spec_ie_headers(d);
    // The Header IEs.
    if wh.len() > 0 {
        assert(wh.last() is HeaderTermination1 || pb.len() == 0);
        lemma_header_ies_of_list(wh, pb, 0);
        assert(wh.take(0) =~= Seq::<HeaderInformationElementRepr>::empty());
        lemma_header_list_at(wh, 0, pb);
        assert(d.len() > 0);
        assert forall|i: int| 0 <= i < hs.len() implies {
            &&& spec_header_fits(#[trigger] hs[i])
            &&& spec_parse_header_ie(hs[i]) == Some(wh[i])
        } by {
            assert(hs[i] == d.subrange(spec_header_list_bytes(wh.take(0 + i)).len() as int, d.len() as int));
            assert(wh.take(0 + i) == wh.take(i));
            lemma_header_list_at(wh, i, pb);
            lemma_header_tail(wh[i], d.subrange(spec_header_list_bytes(wh.take(i + 1)).len() as int, d.len() as int));
        }
        assert(spec_headers_end(d) == hb.len());
    } else {
        assert(hb.len() == 0);
        assert(pb.len() == 0);
        assert(d.len() == 0);
        assert(hs =~= Seq::<Seq<u8>>::empty());
    }
    assert(spec_headers_end(d) == hb.len());
    // The Payload IEs.
    let h = spec_headers_end(d);
    assert(d.subrange(h, d.len() as int) =~= pb);
    let ps = spec_ie_payloads(d);
    if has_p {
        lemma_payload_ies_of_list(rp, 0);
        assert(rp.take(0) =~= Seq::<PayloadInformationElementRepr>::empty());
        lemma_payload_list_at(rp, 0);
        assert(h < d.len());
        assert forall|i: int| 0 <= i < ps.len() implies {
            &&& spec_payload_ok(#[trigger] ps[i])
            &&& spec_payload_matches(rp[i], ps[i])
            &&& crate::repr::ie::spec_payload_fits(ps[i])
        } by {
            assert(ps[i] == pb.subrange(spec_payload_list_bytes(rp.take(0 + i)).len() as int, pb.len() as int));
            assert(rp.take(0 + i) == rp.take(i));
            lemma_payload_list_at(rp, i);
            assert(spec_payload_fits(rp[i]));
            lemma_payload_roundtrip(rp[i], pb.subrange(spec_payload_list_bytes(rp.take(i + 1)).len() as int, pb.len() as int));
        }
        assert(spec_payloads_len(d) == pb.len());
    } else {
        assert(pb.len() == 0);
        assert(h >= d.len());
        assert(ps =~= Seq::<Seq<u8>>::empty());
        assert(spec_payloads_len(d) == 0);
    }
}

} // verus!
