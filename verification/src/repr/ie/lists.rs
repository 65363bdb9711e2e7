//! The bounded lists of the Information Element representations:
//! `heapless::Vec`, whose contents are named here and whose methods the
//! representations call through the wrappers below.
use vstd::prelude::*;

use crate::repr::ie::headers::HeaderInformationElementRepr;
use crate::repr::ie::nested::{LinkInformationRepr, NestedInformationElementRepr, SlotframeDescriptorRepr};
use crate::repr::ie::payloads::PayloadInformationElementRepr;

verus! {

/// `heapless::Vec<T, N>`: a vector of at most `N` items stored inline.
#[verifier::external_type_specification]
#[verifier::external_body]
#[verifier::reject_recursive_types(T)]
pub struct ExHeaplessVec<T, const N: usize>(heapless::Vec<T, N>);

/// The links a list of Link Information representations holds, in order.
pub uninterp spec fn links_of(v: heapless::Vec<LinkInformationRepr, 4>) -> Seq<LinkInformationRepr>;

/// `heapless::Vec::new`: an empty list.
#[verifier::external_body]
pub(crate) fn links_new() -> (r: heapless::Vec<LinkInformationRepr, 4>)
    ensures
        links_of(r) == Seq::<LinkInformationRepr>::empty(),
{
    heapless::Vec::new()
}

/// `heapless::Vec::push`: appends `item` when fewer than four are held, else
/// gives it back and leaves the list unchanged.
#[verifier::external_body]
pub(crate) fn links_push(v: &mut heapless::Vec<LinkInformationRepr, 4>, item: LinkInformationRepr) -> (r: Result<(), LinkInformationRepr>)
    ensures
        r is Ok <==> links_of(*old(v)).len() < 4,
        r is Ok ==> links_of(*final(v)) == links_of(*old(v)).push(item),
        r matches Err(x) ==> x == item && links_of(*final(v)) == links_of(*old(v)),
{
    v.push(item)
}

/// `heapless::Vec::as_slice`: the items held, at most four.
#[verifier::external_body]
pub(crate) fn links_slice(v: &heapless::Vec<LinkInformationRepr, 4>) -> (r: &[LinkInformationRepr])
    ensures
        r@ == links_of(*v),
        r@.len() <= 4,
{
    v.as_slice()
}

/// The descriptors a list of Slotframe Descriptor representations holds,
/// in order.
pub uninterp spec fn descriptors_of(v: heapless::Vec<SlotframeDescriptorRepr, 3>) -> Seq<SlotframeDescriptorRepr>;

/// `heapless::Vec::new`: an empty list.
#[verifier::external_body]
pub(crate) fn descriptors_new() -> (r: heapless::Vec<SlotframeDescriptorRepr, 3>)
    ensures
        descriptors_of(r) == Seq::<SlotframeDescriptorRepr>::empty(),
{
    heapless::Vec::new()
}

/// `heapless::Vec::push`: appends `item` when fewer than three are held,
/// else gives it back and leaves the list unchanged.
#[verifier::external_body]
pub(crate) fn descriptors_push(v: &mut heapless::Vec<SlotframeDescriptorRepr, 3>, item: SlotframeDescriptorRepr) -> (r: Result<(), SlotframeDescriptorRepr>)
    ensures
        r is Ok <==> descriptors_of(*old(v)).len() < 3,
        r is Ok ==> descriptors_of(*final(v)) == descriptors_of(*old(v)).push(item),
        r is Err ==> descriptors_of(*final(v)) == descriptors_of(*old(v)),
{
    v.push(item)
}

/// `heapless::Vec::as_slice`: the items held, at most three.
#[verifier::external_body]
pub(crate) fn descriptors_slice(v: &heapless::Vec<SlotframeDescriptorRepr, 3>) -> (r: &[SlotframeDescriptorRepr])
    ensures
        r@ == descriptors_of(*v),
        r@.len() <= 3,
{
    v.as_slice()
}

/// The elements a list of nested Information Element representations
/// holds, in order.
pub uninterp spec fn nested_of(v: heapless::Vec<NestedInformationElementRepr, 16>) -> Seq<NestedInformationElementRepr>;

/// `heapless::Vec::new`: an empty list.
#[verifier::external_body]
pub(crate) fn nested_new() -> (r: heapless::Vec<NestedInformationElementRepr, 16>)
    ensures
        nested_of(r) == Seq::<NestedInformationElementRepr>::empty(),
{
    heapless::Vec::new()
}

/// `heapless::Vec::push`: appends `item` when fewer than sixteen are held,
/// else gives it back and leaves the list unchanged.
#[verifier::external_body]
pub(crate) fn nested_push(v: &mut heapless::Vec<NestedInformationElementRepr, 16>, item: NestedInformationElementRepr) -> (r: Result<(), NestedInformationElementRepr>)
    ensures
        r is Ok <==> nested_of(*old(v)).len() < 16,
        r is Ok ==> nested_of(*final(v)) == nested_of(*old(v)).push(item),
        r is Err ==> nested_of(*final(v)) == nested_of(*old(v)),
{
    v.push(item)
}

/// `heapless::Vec::as_slice`: the items held, at most sixteen.
#[verifier::external_body]
pub(crate) fn nested_slice(v: &heapless::Vec<NestedInformationElementRepr, 16>) -> (r: &[NestedInformationElementRepr])
    ensures
        r@ == nested_of(*v),
        r@.len() <= 16,
{
    v.as_slice()
}

/// The elements a list of HeaderInformationElementRepr values holds, in order.
pub uninterp spec fn header_ies_of(v: heapless::Vec<HeaderInformationElementRepr, 16>) -> Seq<HeaderInformationElementRepr>;

/// `heapless::Vec::new`: an empty list.
#[verifier::external_body]
pub(crate) fn header_ies_new() -> (r: heapless::Vec<HeaderInformationElementRepr, 16>)
    ensures
        header_ies_of(r) == Seq::<HeaderInformationElementRepr>::empty(),
{
    heapless::Vec::new()
}

/// `heapless::Vec::push`: appends `item` when fewer than sixteen are held,
/// else gives it back and leaves the list unchanged.
#[verifier::external_body]
pub(crate) fn header_ies_push(v: &mut heapless::Vec<HeaderInformationElementRepr, 16>, item: HeaderInformationElementRepr) -> (r: Result<(), HeaderInformationElementRepr>)
    ensures
        r is Ok <==> header_ies_of(*old(v)).len() < 16,
        r is Ok ==> header_ies_of(*final(v)) == header_ies_of(*old(v)).push(item),
        r is Err ==> header_ies_of(*final(v)) == header_ies_of(*old(v)),
{
    v.push(item)
}

/// `heapless::Vec::as_slice`: the items held, at most sixteen.
#[verifier::external_body]
pub(crate) fn header_ies_slice(v: &heapless::Vec<HeaderInformationElementRepr, 16>) -> (r: &[HeaderInformationElementRepr])
    ensures
        r@ == header_ies_of(*v),
        r@.len() <= 16,
{
    v.as_slice()
}

/// The elements a list of PayloadInformationElementRepr values holds, in order.
pub uninterp spec fn payload_ies_of(v: heapless::Vec<PayloadInformationElementRepr, 16>) -> Seq<PayloadInformationElementRepr>;

/// `heapless::Vec::new`: an empty list.
#[verifier::external_body]
pub(crate) fn payload_ies_new() -> (r: heapless::Vec<PayloadInformationElementRepr, 16>)
    ensures
        payload_ies_of(r) == Seq::<PayloadInformationElementRepr>::empty(),
{
    heapless::Vec::new()
}

/// `heapless::Vec::push`: appends `item` when fewer than sixteen are held,
/// else gives it back and leaves the list unchanged.
#[verifier::external_body]
pub(crate) fn payload_ies_push(v: &mut heapless::Vec<PayloadInformationElementRepr, 16>, item: PayloadInformationElementRepr) -> (r: Result<(), PayloadInformationElementRepr>)
    ensures
        r is Ok <==> payload_ies_of(*old(v)).len() < 16,
        r is Ok ==> payload_ies_of(*final(v)) == payload_ies_of(*old(v)).push(item),
        r is Err ==> payload_ies_of(*final(v)) == payload_ies_of(*old(v)),
{
    v.push(item)
}

/// `heapless::Vec::as_slice`: the items held, at most sixteen.
#[verifier::external_body]
pub(crate) fn payload_ies_slice(v: &heapless::Vec<PayloadInformationElementRepr, 16>) -> (r: &[PayloadInformationElementRepr])
    ensures
        r@ == payload_ies_of(*v),
        r@.len() <= 16,
{
    v.as_slice()
}

} // verus!
