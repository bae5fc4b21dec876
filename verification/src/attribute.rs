//! The raw attribute codec: length-prefixed, type-tagged values (TLVs)
//! padded to four-byte boundaries. This layer is independent of what any
//! tag means; the typed dictionaries sit on top of it.
//!
//! On the wire an attribute is `(length: u16, type: u16, payload)` where
//! `length` counts the 4-byte header plus the payload, followed by zero
//! padding up to the next multiple of four.

use vstd::prelude::*;

verus! {

use vstd::bytes::lemma_auto_spec_u16_to_from_le_bytes;
use vstd::bytes::spec_u16_from_le_bytes;
use vstd::bytes::spec_u16_to_le_bytes;
use vstd::slice::slice_subrange;
use vstd::slice::slice_to_vec;

use crate::error::NetlinkError;
use crate::utils::lemma_align4;
use crate::utils::push_bytes;
use crate::utils::push_u16;
use crate::utils::push_zeros;
use crate::utils::read_u16;
use crate::utils::spec_align4;
use crate::utils::zeros;

/// Whether a payload of this size can be framed at all: the length field
/// has 16 bits and counts the 4-byte header too.
pub open spec fn tlv_fits(body: Seq<u8>) -> bool {
    body.len() + 4 <= 0xFFFF
}

/// The exact bytes of one framed attribute: little-endian length and tag,
/// the payload, and zero padding to the next multiple of four.
pub open spec fn spec_tlv(tag: u16, body: Seq<u8>) -> Seq<u8> {
    spec_u16_to_le_bytes((body.len() + 4) as u16) + spec_u16_to_le_bytes(tag) + body + zeros(
        spec_align4(body.len() + 4 as int) - (body.len() + 4 as int),
    )
}

/// One step of walking an attribute stream: a clean end, a framing
/// error, or one attribute together with the padded byte count it
/// occupies.
pub enum RawStep {
    End,
    Bad(NetlinkError),
    Item(u16, Seq<u8>, int),
}

/// Looks at the head of an attribute stream.
///
/// Fewer than 4 remaining bytes end the stream cleanly. A declared length
/// below 4 is malformed; one that exceeds the remaining bytes is
/// truncated. An attribute occupies its length padded to a multiple of
/// four; padding bytes are accepted whatever they hold, and padding
/// missing at the very end of the stream is tolerated.
pub open spec fn raw_step(b: Seq<u8>) -> RawStep {
    if b.len() < 4 {
        RawStep::End
    } else {
        let len = spec_u16_from_le_bytes(b.subrange(0, 2)) as int;
        let tag = spec_u16_from_le_bytes(b.subrange(2, 4));
        if len < 4 {
            RawStep::Bad(NetlinkError::BadAttribute)
        } else if len > b.len() {
            RawStep::Bad(NetlinkError::TruncatedAttribute)
        } else {
            let consumed = if spec_align4(len) <= b.len() {
                spec_align4(len)
            } else {
                b.len() as int
            };
            RawStep::Item(tag, b.subrange(4, len), consumed)
        }
    }
}

/// Every attribute step makes progress through the stream.
pub proof fn lemma_raw_step(b: Seq<u8>)
    ensures
        raw_step(b) matches RawStep::Item(tag, body, consumed) ==> {
            &&& 4 <= consumed <= b.len()
            &&& body.len() + 4 <= 0xFFFF
        },
{
    if b.len() >= 4 {
        let len = spec_u16_from_le_bytes(b.subrange(0, 2)) as int;
        lemma_auto_spec_u16_to_from_le_bytes();
        if 4 <= len <= b.len() {
            lemma_align4(len);
        }
    }
}

/// The raw attributes found in a byte stream, in order, each as its tag
/// and its payload bytes.
pub open spec fn parse_raw_attrs(b: Seq<u8>) -> Result<Seq<(u16, Seq<u8>)>, NetlinkError>
    decreases b.len(),
    via parse_raw_attrs_decreases
{
    match raw_step(b) {
        RawStep::End => Ok(Seq::empty()),
        RawStep::Bad(e) => Err(e),
        RawStep::Item(tag, body, consumed) => match parse_raw_attrs(b.skip(consumed)) {
            Ok(rest) => Ok(seq![(tag, body)] + rest),
            Err(e) => Err(e),
        },
    }
}

#[via_fn]
proof fn parse_raw_attrs_decreases(b: Seq<u8>) {
    lemma_raw_step(b);
}

/// A raw netlink attribute: a tag and the payload bytes, as framed by the
/// TLV codec. The stored length always counts the 4-byte header plus the
/// payload.
#[derive(Debug, PartialEq, Eq)]
pub struct RawAttribute {
    attr_len: u16,
    attr_type: u16,
    payload: Vec<u8>,
}

impl View for RawAttribute {
    type V = (u16, Seq<u8>);

    closed spec fn view(&self) -> (u16, Seq<u8>) {
        (self.attr_type, self.payload@)
    }
}

impl RawAttribute {
    /// The stored length agrees with the payload.
    pub closed spec fn wf(self) -> bool {
        self.attr_len == self.payload@.len() + 4
    }

    /// Create an attribute from a tag and a payload. The payload must
    /// leave the 16-bit length field representable.
    pub fn new(attr_type: u16, payload: Vec<u8>) -> (r: Self)
        requires
            payload@.len() + 4 < 0xFFFF,
        ensures
            r.wf(),
            r@ == (attr_type, payload@),
    {
        RawAttribute { attr_len: (4 + payload.len()) as u16, attr_type, payload }
    }

    /// The declared length of the attribute, header included, unpadded.
    pub fn length(&self) -> (r: u16)
        requires
            self.wf(),
        ensures
            r == self@.1.len() + 4,
    {
        self.attr_len
    }

    /// The tag of the attribute.
    pub fn attr_type(&self) -> (r: u16)
        ensures
            r == self@.0,
    {
        self.attr_type
    }

    /// The payload of the attribute.
    pub fn payload(&self) -> (r: &Vec<u8>)
        ensures
            r@ == self@.1,
    {
        &self.payload
    }

    /// The payload of the attribute, owned.
    pub fn into_payload(self) -> (r: Vec<u8>)
        ensures
            r@ == self@.1,
    {
        self.payload
    }
}

/// Serializes one attribute into `buffer`: length, tag, the payload, and
/// zero padding to a multiple of four. The buffer is left untouched when
/// the payload cannot be represented in the 16-bit length field.
pub fn serialize_attribute_into(buffer: &mut Vec<u8>, attr_type: u16, payload: &[u8]) -> (r: Result<
    (),
    NetlinkError,
>)
    ensures
        match r {
            Ok(()) => tlv_fits(payload@) && final(buffer)@ == old(buffer)@ + spec_tlv(
                attr_type,
                payload@,
            ),
            Err(e) => {
                &&& e == NetlinkError::AttributeTooLong
                &&& !tlv_fits(payload@)
                &&& final(buffer)@ == old(buffer)@
            },
        },
{
    if payload.len() > 0xFFFF - 4 {
        return Err(NetlinkError::AttributeTooLong);
    }
    let len: usize = payload.len() + 4;
    let aligned: usize = ((len + 3) / 4) * 4;
    proof {
        lemma_align4(len as int);
    }
    push_u16(buffer, len as u16);
    push_u16(buffer, attr_type);
    push_bytes(buffer, payload);
    push_zeros(buffer, aligned - len);
    assert(final(buffer)@ =~= old(buffer)@ + spec_tlv(attr_type, payload@));
    Ok(())
}

/// Parses the raw attribute that starts at `pos`, if any. On success the
/// returned position is where the next attribute starts.
pub fn parse_raw_one(bytes: &[u8], pos: usize) -> (r: Result<
    Option<(RawAttribute, usize)>,
    NetlinkError,
>)
    requires
        pos <= bytes@.len(),
    ensures
        match r {
            Ok(None) => raw_step(bytes@.skip(pos as int)) == RawStep::End,
            Ok(Some((attr, newpos))) => {
                &&& attr.wf()
                &&& pos < newpos <= bytes@.len()
                &&& raw_step(bytes@.skip(pos as int)) == RawStep::Item(
                    attr@.0,
                    attr@.1,
                    newpos - pos,
                )
            },
            Err(e) => raw_step(bytes@.skip(pos as int)) == RawStep::Bad(e),
        },
{
    let ghost b = bytes@.skip(pos as int);
    if bytes.len() - pos < 4 {
        return Ok(None);
    }
    let len16 = read_u16(bytes, pos).unwrap();
    let tag = read_u16(bytes, pos + 2).unwrap();
    proof {
        assert(b.subrange(0, 2) =~= bytes@.subrange(pos as int, pos as int + 2));
        assert(b.subrange(2, 4) =~= bytes@.subrange(pos as int + 2, pos as int + 4));
    }
    let len: usize = len16 as usize;
    if len < 4 {
        return Err(NetlinkError::BadAttribute);
    }
    if len > bytes.len() - pos {
        return Err(NetlinkError::TruncatedAttribute);
    }
    let aligned: usize = ((len + 3) / 4) * 4;
    proof {
        lemma_align4(len as int);
    }
    let newpos: usize = if aligned <= bytes.len() - pos {
        pos + aligned
    } else {
        bytes.len()
    };
    let payload = slice_to_vec(slice_subrange(bytes, pos + 4, pos + len));
    proof {
        assert(b.subrange(4, len as int) =~= bytes@.subrange(pos as int + 4, pos as int + len));
        assert(b.skip(newpos - pos) =~= bytes@.skip(newpos as int));
    }
    let attr = RawAttribute { attr_len: len16, attr_type: tag, payload };
    Ok(Some((attr, newpos)))
}

/// A framed attribute occupies exactly its declared length rounded up
/// to the next multiple of four, so every attribute stream stays
/// aligned.
pub proof fn lemma_tlv_aligned(tag: u16, body: Seq<u8>)
    requires
        tlv_fits(body),
    ensures
        spec_tlv(tag, body).len() == spec_align4(body.len() + 4 as int),
        spec_tlv(tag, body).len() % 4 == 0,
{
    lemma_auto_spec_u16_to_from_le_bytes();
    lemma_align4(body.len() + 4 as int);
}

/// A well-formed framed attribute at the head of a stream is seen by the
/// walk exactly as its tag and payload, and what follows it is `rest`.
pub proof fn lemma_parse_tlv(tag: u16, body: Seq<u8>, rest: Seq<u8>)
    requires
        tlv_fits(body),
    ensures
        spec_tlv(tag, body).len() == spec_align4(body.len() + 4 as int),
        raw_step(spec_tlv(tag, body) + rest) == RawStep::Item(
            tag,
            body,
            spec_tlv(tag, body).len() as int,
        ),
        (spec_tlv(tag, body) + rest).skip(spec_tlv(tag, body).len() as int) == rest,
{
    lemma_auto_spec_u16_to_from_le_bytes();
    let len = body.len() + 4;
    lemma_align4(len as int);
    let b = spec_tlv(tag, body) + rest;
    assert(b.len() == spec_align4(len as int) + rest.len());
    assert(b.subrange(0, 2) =~= spec_u16_to_le_bytes(len as u16));
    assert(b.subrange(2, 4) =~= spec_u16_to_le_bytes(tag));
    assert(spec_u16_from_le_bytes(b.subrange(0, 2)) == len);
    assert(b.subrange(4, len as int) =~= body);
    assert(b.skip(spec_align4(len as int)) =~= rest);
}

/// An iterator over the raw attributes of a byte stream.
pub struct RawAttributeIter<'a> {
    bytes: &'a [u8],
    pos: usize,
}

impl<'a> RawAttributeIter<'a> {
    /// The bytes that have not been consumed yet.
    pub closed spec fn remaining(self) -> Seq<u8> {
        self.bytes@.skip(self.pos as int)
    }

    /// The position is inside the stream.
    pub closed spec fn wf(self) -> bool {
        self.pos <= self.bytes@.len()
    }

    /// An iterator at the start of `bytes`.
    pub fn new(bytes: &'a [u8]) -> (r: Self)
        ensures
            r.wf(),
            r.remaining() == bytes@,
    {
        let r = RawAttributeIter { bytes, pos: 0 };
        proof {
            assert(r.remaining() =~= bytes@);
        }
        r
    }

    /// The next attribute of the stream: `Ok(None)` at a clean end,
    /// `Ok(Some(..))` for one parsed attribute, and the stream's error
    /// where it is malformed or truncated.
    pub fn next(&mut self) -> (r: Result<Option<RawAttribute>, NetlinkError>)
        requires
            old(self).wf(),
        ensures
            final(self).wf(),
            match r {
                Ok(None) => {
                    &&& raw_step(old(self).remaining()) == RawStep::End
                    &&& *final(self) == *old(self)
                },
                Ok(Some(attr)) => {
                    &&& attr.wf()
                    &&& final(self).remaining().len() < old(self).remaining().len()
                    &&& raw_step(old(self).remaining()) == RawStep::Item(
                        attr@.0,
                        attr@.1,
                        old(self).remaining().len() - final(self).remaining().len(),
                    )
                    &&& final(self).remaining() == old(self).remaining().skip(
                        old(self).remaining().len() - final(self).remaining().len(),
                    )
                },
                Err(e) => raw_step(old(self).remaining()) == RawStep::Bad(e),
            },
    {
        match parse_raw_one(self.bytes, self.pos) {
            Ok(None) => Ok(None),
            Ok(Some((attr, newpos))) => {
                let ghost oldpos = self.pos as int;
                self.pos = newpos;
                proof {
                    assert(self.remaining() =~= self.bytes@.skip(oldpos).skip(
                        newpos - oldpos,
                    ));
                }
                Ok(Some(attr))
            },
            Err(e) => Err(e),
        }
    }
}


/// The views of a sequence of values, elementwise.
pub open spec fn views_of<T: View>(s: Seq<T>) -> Seq<T::V> {
    s.map_values(|x: T| x@)
}

/// A typed attribute dictionary: a closed set of variants, each pinning
/// a tag and a payload shape, with both directions of the codec and the
/// proof that decoding inverts encoding. Contracts are stated over the
/// views of the attribute values.
pub trait Attribute: View + Sized {
    /// The tag this attribute writes.
    spec fn spec_tag(v: Self::V) -> u16;

    /// The payload bytes this attribute writes.
    spec fn spec_body(v: Self::V) -> Seq<u8>;

    /// Whether the attribute, nested payloads included, fits its frame
    /// and can therefore be serialized.
    spec fn spec_enc_ok(v: Self::V) -> bool;

    /// Whether the attribute also decodes back to itself: it fits its
    /// frame, and it does not impersonate another variant's tag.
    spec fn spec_wf(v: Self::V) -> bool;

    /// What a raw tag and payload decode to in this dictionary.
    spec fn spec_decode(tag: u16, body: Seq<u8>) -> Result<Self::V, NetlinkError>;

    /// A well-formed attribute can be serialized.
    proof fn lemma_wf_enc(v: Self::V)
        requires
            Self::spec_wf(v),
        ensures
            Self::spec_enc_ok(v),
    ;

    /// Decoding inverts encoding, for well-formed attributes.
    proof fn lemma_round_trip(v: Self::V)
        requires
            Self::spec_wf(v),
        ensures
            tlv_fits(Self::spec_body(v)),
            Self::spec_decode(Self::spec_tag(v), Self::spec_body(v)) == Ok::<
                Self::V,
                NetlinkError,
            >(v),
    ;

    /// Decodes one raw attribute of this dictionary.
    fn from_raw(raw: RawAttribute) -> (r: Result<Self, NetlinkError>)
        requires
            raw.wf(),
        ensures
            match r {
                Ok(a) => Self::spec_decode(raw@.0, raw@.1) == Ok::<Self::V, NetlinkError>(a@),
                Err(e) => Self::spec_decode(raw@.0, raw@.1) == Err::<Self::V, NetlinkError>(e),
            },
    ;

    /// Appends the framed attribute to `buffer`. On failure the buffer
    /// is left as it was.
    fn serialize_into(&self, buffer: &mut Vec<u8>) -> (r: Result<(), NetlinkError>)
        ensures
            match r {
                Ok(()) => Self::spec_enc_ok(self@) && final(buffer)@ == old(buffer)@ + spec_tlv(
                    Self::spec_tag(self@),
                    Self::spec_body(self@),
                ),
                Err(e) => {
                    &&& e == NetlinkError::AttributeTooLong
                    &&& !Self::spec_enc_ok(self@)
                    &&& final(buffer)@ == old(buffer)@
                },
            },
    ;
}

/// Every attribute of the sequence is well-formed.
pub open spec fn attrs_wf<A: Attribute>(vs: Seq<A::V>) -> bool {
    forall|i: int| 0 <= i < vs.len() ==> A::spec_wf(#[trigger] vs[i])
}

/// Every attribute of the sequence can be serialized.
pub open spec fn attrs_enc_ok<A: Attribute>(vs: Seq<A::V>) -> bool {
    forall|i: int| 0 <= i < vs.len() ==> A::spec_enc_ok(#[trigger] vs[i])
}

/// The bytes of a whole attribute list: each attribute framed, in the
/// given order.
pub open spec fn attrs_bytes<A: Attribute>(vs: Seq<A::V>) -> Seq<u8>
    decreases vs.len(),
{
    if vs.len() == 0 {
        Seq::empty()
    } else {
        spec_tlv(A::spec_tag(vs[0]), A::spec_body(vs[0])) + attrs_bytes::<A>(vs.drop_first())
    }
}

/// The typed attributes found in a byte stream: the raw walk of
/// [`raw_step`], with each tag and payload decoded by the dictionary.
pub open spec fn parse_attrs<A: Attribute>(b: Seq<u8>) -> Result<Seq<A::V>, NetlinkError>
    decreases b.len(),
    via parse_attrs_decreases::<A>
{
    match raw_step(b) {
        RawStep::End => Ok(Seq::empty()),
        RawStep::Bad(e) => Err(e),
        RawStep::Item(tag, body, consumed) => match A::spec_decode(tag, body) {
            Err(e) => Err(e),
            Ok(v) => match parse_attrs::<A>(b.skip(consumed)) {
                Ok(rest) => Ok(seq![v] + rest),
                Err(e) => Err(e),
            },
        },
    }
}

#[via_fn]
proof fn parse_attrs_decreases<A: Attribute>(b: Seq<u8>) {
    lemma_raw_step(b);
}

/// A list of well-formed attributes can be serialized.
pub proof fn lemma_attrs_wf_enc<A: Attribute>(vs: Seq<A::V>)
    requires
        attrs_wf::<A>(vs),
    ensures
        attrs_enc_ok::<A>(vs),
{
    assert forall|i: int| 0 <= i < vs.len() implies A::spec_enc_ok(#[trigger] vs[i]) by {
        A::lemma_wf_enc(vs[i]);
    }
}

/// Parsing an encoded attribute list gives back exactly the list.
pub proof fn lemma_attrs_round_trip<A: Attribute>(vs: Seq<A::V>)
    requires
        attrs_wf::<A>(vs),
    ensures
        parse_attrs::<A>(attrs_bytes::<A>(vs)) == Ok::<Seq<A::V>, NetlinkError>(vs),
    decreases vs.len(),
{
    if vs.len() == 0 {
        assert(attrs_bytes::<A>(vs).len() == 0);
        assert(vs =~= Seq::<A::V>::empty());
    } else {
        let v = vs[0];
        let rest = vs.drop_first();
        let t = A::spec_tag(v);
        let body = A::spec_body(v);
        A::lemma_round_trip(v);
        lemma_parse_tlv(t, body, attrs_bytes::<A>(rest));
        assert(attrs_wf::<A>(rest)) by {
            assert forall|i: int| 0 <= i < rest.len() implies A::spec_wf(#[trigger] rest[i]) by {
                assert(rest[i] == vs[i + 1]);
            }
        }
        lemma_attrs_round_trip::<A>(rest);
        let b = attrs_bytes::<A>(vs);
        let tlvlen = spec_tlv(t, body).len() as int;
        assert(b == spec_tlv(t, body) + attrs_bytes::<A>(rest));
        assert(raw_step(b) == RawStep::Item(t, body, tlvlen));
        assert(b.skip(tlvlen) == attrs_bytes::<A>(rest));
        assert(A::spec_decode(t, body) == Ok::<A::V, NetlinkError>(v));
        assert(parse_attrs::<A>(b.skip(tlvlen)) == Ok::<Seq<A::V>, NetlinkError>(rest));
        assert(parse_attrs::<A>(b) == Ok::<Seq<A::V>, NetlinkError>(seq![v] + rest));
        assert(seq![v] + rest =~= vs);
    }
}

/// The bytes of an attribute list are a multiple of four long.
pub proof fn lemma_attrs_bytes_aligned<A: Attribute>(vs: Seq<A::V>)
    requires
        attrs_wf::<A>(vs),
    ensures
        attrs_bytes::<A>(vs).len() % 4 == 0,
    decreases vs.len(),
{
    if vs.len() > 0 {
        let v = vs[0];
        let rest = vs.drop_first();
        A::lemma_round_trip(v);
        lemma_parse_tlv(A::spec_tag(v), A::spec_body(v), Seq::empty());
        lemma_align4(A::spec_body(v).len() + 4 as int);
        assert(attrs_wf::<A>(rest)) by {
            assert forall|i: int| 0 <= i < rest.len() implies A::spec_wf(#[trigger] rest[i]) by {
                assert(rest[i] == vs[i + 1]);
            }
        }
        lemma_attrs_bytes_aligned::<A>(rest);
    }
}

/// Extending the encoded prefix by one attribute appends its frame.
proof fn lemma_attrs_bytes_take<A: Attribute>(vs: Seq<A::V>, i: int)
    requires
        0 <= i < vs.len(),
    ensures
        attrs_bytes::<A>(vs.take(i + 1)) == attrs_bytes::<A>(vs.take(i)) + spec_tlv(
            A::spec_tag(vs[i]),
            A::spec_body(vs[i]),
        ),
    decreases i,
{
    if i == 0 {
        assert(vs.take(1).drop_first() =~= vs.take(0));
        assert(vs.take(0).len() == 0);
        assert(vs.take(1)[0] == vs[0]);
        assert(attrs_bytes::<A>(vs.take(1)) =~= attrs_bytes::<A>(vs.take(0)) + spec_tlv(
            A::spec_tag(vs[0]),
            A::spec_body(vs[0]),
        ));
    } else {
        let d = vs.drop_first();
        lemma_attrs_bytes_take::<A>(d, i - 1);
        assert(vs.take(i + 1).drop_first() =~= d.take(i));
        assert(vs.take(i).drop_first() =~= d.take(i - 1));
        assert(vs.take(i + 1)[0] == vs[0]);
        assert(vs.take(i)[0] == vs[0]);
        assert(d[i - 1] == vs[i]);
        assert(attrs_bytes::<A>(vs.take(i + 1)) =~= attrs_bytes::<A>(vs.take(i)) + spec_tlv(
            A::spec_tag(vs[i]),
            A::spec_body(vs[i]),
        ));
    }
}

/// Serializes a whole attribute list into `buffer`, in order. On failure
/// some attribute does not fit its frame.
pub fn serialize_attrs<A: Attribute>(buffer: &mut Vec<u8>, attrs: &Vec<A>) -> (r: Result<
    (),
    NetlinkError,
>)
    ensures
        match r {
            Ok(()) => attrs_enc_ok::<A>(views_of(attrs@)) && final(buffer)@ == old(buffer)@
                + attrs_bytes::<A>(views_of(attrs@)),
            Err(e) => e == NetlinkError::AttributeTooLong && !attrs_enc_ok::<A>(views_of(attrs@)),
        },
{
    let ghost vs = views_of(attrs@);
    proof {
        assert(vs.take(0) =~= Seq::empty());
    }
    let mut i: usize = 0;
    while i < attrs.len()
        invariant
            i <= attrs@.len(),
            vs == views_of(attrs@),
            vs.len() == attrs@.len(),
            buffer@ == old(buffer)@ + attrs_bytes::<A>(vs.take(i as int)),
            forall|j: int| 0 <= j < i ==> A::spec_enc_ok(#[trigger] vs[j]),
        decreases attrs@.len() - i,
    {
        let a = &attrs[i];
        let r = a.serialize_into(buffer);
        proof {
            assert(vs[i as int] == attrs@[i as int]@);
        }
        match r {
            Ok(()) => {
                proof {
                    lemma_attrs_bytes_take::<A>(vs, i as int);
                }
                i = i + 1;
            },
            Err(e) => {
                return Err(e);
            },
        }
    }
    proof {
        assert(vs.take(vs.len() as int) =~= vs);
    }
    Ok(())
}

/// Parses every typed attribute from `pos` to the end of `bytes`.
pub fn parse_attrs_exec<A: Attribute>(bytes: &[u8], pos: usize) -> (r: Result<Vec<A>, NetlinkError>)
    requires
        pos <= bytes@.len(),
    ensures
        match r {
            Ok(v) => parse_attrs::<A>(bytes@.skip(pos as int)) == Ok::<Seq<A::V>, NetlinkError>(
                views_of(v@),
            ),
            Err(e) => parse_attrs::<A>(bytes@.skip(pos as int)) == Err::<Seq<A::V>, NetlinkError>(
                e,
            ),
        },
{
    let ghost b0 = bytes@.skip(pos as int);
    let mut acc: Vec<A> = Vec::new();
    let mut cur: usize = pos;
    proof {
        assert(views_of(acc@) =~= Seq::<A::V>::empty());
    }
    loop
        invariant
            pos <= cur <= bytes@.len(),
            b0 == bytes@.skip(pos as int),
            parse_attrs::<A>(b0) == (match parse_attrs::<A>(bytes@.skip(cur as int)) {
                Ok(t) => Ok::<Seq<A::V>, NetlinkError>(views_of(acc@) + t),
                Err(e) => Err::<Seq<A::V>, NetlinkError>(e),
            }),
        decreases bytes@.len() - cur,
    {
        let ghost bc = bytes@.skip(cur as int);
        match parse_raw_one(bytes, cur) {
            Ok(None) => {
                proof {
                    assert(parse_attrs::<A>(bc) == Ok::<Seq<A::V>, NetlinkError>(Seq::empty()));
                    assert(views_of(acc@) + Seq::<A::V>::empty() =~= views_of(acc@));
                }
                return Ok(acc);
            },
            Ok(Some((attr, newpos))) => {
                let ghost tag = attr@.0;
                let ghost body = attr@.1;
                let ghost bn = bytes@.skip(newpos as int);
                proof {
                    assert(bc.skip(newpos - cur) =~= bn);
                }
                match A::from_raw(attr) {
                    Ok(a) => {
                        let ghost accv = views_of(acc@);
                        acc.push(a);
                        cur = newpos;
                        proof {
                            assert(views_of(acc@) =~= accv + seq![a@]);
                            match parse_attrs::<A>(bn) {
                                Ok(t) => {
                                    assert(parse_attrs::<A>(bc) == Ok::<Seq<A::V>, NetlinkError>(
                                        seq![a@] + t,
                                    ));
                                    assert((accv + seq![a@]) + t =~= accv + (seq![a@] + t));
                                },
                                Err(_) => {},
                            }
                        }
                    },
                    Err(e) => {
                        proof {
                            assert(parse_attrs::<A>(bc) == Err::<Seq<A::V>, NetlinkError>(e));
                        }
                        return Err(e);
                    },
                }
            },
            Err(e) => {
                return Err(e);
            },
        }
    }
}

} // verus!
