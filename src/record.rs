use vstd::prelude::*;

use crate::error::CustomError;

verus! {

/// Number of bytes in an account identity.
pub const IDENTITY_LEN: usize = 32;

/// Number of bytes of the type tag that opens every record.
pub const DISCRIMINATOR_LEN: usize = 8;

/// Storage size of one record: type tag, owner identity, little-endian payload.
pub const RECORD_SIZE: usize = 48;

/// A fixed-width account identity (a public key).
#[derive(Clone, Copy, Debug, PartialEq, Eq)]
pub struct Identity {
    pub bytes: [u8; 32],
}

impl View for Identity {
    type V = Seq<u8>;

    open spec fn view(&self) -> Seq<u8> {
        self.bytes@
    }
}

/// Compares two identities byte by byte.
pub fn same_identity(a: &Identity, b: &Identity) -> (r: bool)
    ensures
        r == (a@ == b@),
{
    let mut i: usize = 0;
    while i < IDENTITY_LEN
        invariant
            i <= IDENTITY_LEN,
            a@.len() == IDENTITY_LEN,
            b@.len() == IDENTITY_LEN,
            forall|j: int| 0 <= j < i ==> a@[j] == b@[j],
        decreases IDENTITY_LEN - i,
    {
        if a.bytes[i] != b.bytes[i] {
            return false;
        }
        i = i + 1;
    }
    assert(a@ =~= b@);
    true
}

/// The mathematical content of a record: who owns it and what it holds.
pub struct RecordModel {
    pub owner: Seq<u8>,
    pub payload: u64,
}

/// The persisted record: its owner, fixed at creation, and its one mutable field.
#[derive(Clone, Copy, Debug, PartialEq, Eq)]
pub struct MyNewAccount {
    pub owner: Identity,
    pub data: u64,
}

impl View for MyNewAccount {
    type V = RecordModel;

    open spec fn view(&self) -> RecordModel {
        RecordModel { owner: self.owner@, payload: self.data }
    }
}

/// The type tag of a record: the first eight bytes of SHA-256 of "account:MyNewAccount".
pub open spec fn discriminator() -> Seq<u8> {
    seq![208u8, 53u8, 102u8, 101u8, 77u8, 61u8, 110u8, 44u8]
}

/// The eight little-endian bytes of `v`.
pub open spec fn le_bytes(v: u64) -> Seq<u8> {
    seq![
        (v & 0xff) as u8,
        ((v >> 8u64) & 0xff) as u8,
        ((v >> 16u64) & 0xff) as u8,
        ((v >> 24u64) & 0xff) as u8,
        ((v >> 32u64) & 0xff) as u8,
        ((v >> 40u64) & 0xff) as u8,
        ((v >> 48u64) & 0xff) as u8,
        ((v >> 56u64) & 0xff) as u8,
    ]
}

/// The number whose little-endian bytes are the first eight of `b`.
pub open spec fn le_value(b: Seq<u8>) -> u64
    recommends
        b.len() >= 8,
{
    (b[0] as u64) | ((b[1] as u64) << 8u64) | ((b[2] as u64) << 16u64) | ((b[3] as u64)
        << 24u64) | ((b[4] as u64) << 32u64) | ((b[5] as u64) << 40u64) | ((b[6] as u64)
        << 48u64) | ((b[7] as u64) << 56u64)
}

/// The stored form of a record: type tag, then owner, then payload.
pub open spec fn record_bytes(m: RecordModel) -> Seq<u8> {
    discriminator() + m.owner + le_bytes(m.payload)
}

/// The record that `data` holds, if `data` is one: the right size and the right type tag.
pub open spec fn record_of(data: Seq<u8>) -> Option<RecordModel> {
    if data.len() == RECORD_SIZE && data.subrange(0, DISCRIMINATOR_LEN as int)
        == discriminator() {
        Some(
            RecordModel {
                owner: data.subrange(DISCRIMINATOR_LEN as int, RECORD_SIZE as int - 8),
                payload: le_value(data.subrange(RECORD_SIZE as int - 8, RECORD_SIZE as int)),
            },
        )
    } else {
        None
    }
}

/// Reading a payload back from its bytes gives the payload.
pub proof fn lemma_le_round_trip(v: u64)
    ensures
        le_value(le_bytes(v)) == v,
{
    let b = le_bytes(v);
    assert(((v & 0xff) as u8 as u64) | ((((v >> 8u64) & 0xff) as u8 as u64) << 8u64) | ((((v
        >> 16u64) & 0xff) as u8 as u64) << 16u64) | ((((v >> 24u64) & 0xff) as u8 as u64)
        << 24u64) | ((((v >> 32u64) & 0xff) as u8 as u64) << 32u64) | ((((v >> 40u64) & 0xff)
        as u8 as u64) << 40u64) | ((((v >> 48u64) & 0xff) as u8 as u64) << 48u64) | ((((v
        >> 56u64) & 0xff) as u8 as u64) << 56u64) == v) by (bit_vector);
}

/// Decoding the stored form of a record gives that record back.
pub proof fn lemma_record_round_trip(m: RecordModel)
    requires
        m.owner.len() == IDENTITY_LEN,
    ensures
        record_bytes(m).len() == RECORD_SIZE,
        record_of(record_bytes(m)) == Some(m),
{
    let b = record_bytes(m);
    assert(b.subrange(0, 8) =~= discriminator());
    assert(b.subrange(8, 40) =~= m.owner);
    assert(b.subrange(40, 48) =~= le_bytes(m.payload));
    lemma_le_round_trip(m.payload);
}

/// The type tag of a record, as bytes.
pub fn account_discriminator() -> (r: [u8; 8])
    ensures
        r@ == discriminator(),
{
    let r: [u8; 8] = [208, 53, 102, 101, 77, 61, 110, 44];
    assert(r@ =~= discriminator());
    r
}

/// The eight little-endian bytes of `v`.
pub fn payload_bytes(v: u64) -> (r: [u8; 8])
    ensures
        r@ == le_bytes(v),
{
    let r: [u8; 8] = [
        (v & 0xff) as u8,
        ((v >> 8u64) & 0xff) as u8,
        ((v >> 16u64) & 0xff) as u8,
        ((v >> 24u64) & 0xff) as u8,
        ((v >> 32u64) & 0xff) as u8,
        ((v >> 40u64) & 0xff) as u8,
        ((v >> 48u64) & 0xff) as u8,
        ((v >> 56u64) & 0xff) as u8,
    ];
    assert(r@ =~= le_bytes(v));
    r
}

/// Writes a record in its stored form.
pub fn encode_record(rec: &MyNewAccount) -> (r: Vec<u8>)
    ensures
        r@ == record_bytes(rec@),
        r@.len() == RECORD_SIZE,
{
    let tag = account_discriminator();
    let tail = payload_bytes(rec.data);
    let mut out: Vec<u8> = Vec::new();
    let mut i: usize = 0;
    while i < DISCRIMINATOR_LEN
        invariant
            i <= DISCRIMINATOR_LEN,
            tag@ == discriminator(),
            out@ =~= discriminator().subrange(0, i as int),
        decreases DISCRIMINATOR_LEN - i,
    {
        out.push(tag[i]);
        i = i + 1;
    }
    let mut j: usize = 0;
    while j < IDENTITY_LEN
        invariant
            j <= IDENTITY_LEN,
            rec@.owner.len() == IDENTITY_LEN,
            out@ =~= discriminator() + rec@.owner.subrange(0, j as int),
        decreases IDENTITY_LEN - j,
    {
        out.push(rec.owner.bytes[j]);
        j = j + 1;
    }
    let mut k: usize = 0;
    while k < 8
        invariant
            k <= 8,
            rec@.owner.len() == IDENTITY_LEN,
            tail@ == le_bytes(rec.data),
            out@ =~= discriminator() + rec@.owner + le_bytes(rec.data).subrange(0, k as int),
        decreases 8 - k,
    {
        out.push(tail[k]);
        k = k + 1;
    }
    assert(le_bytes(rec.data).subrange(0, 8) =~= le_bytes(rec.data));
    out
}

/// Reads a record from an account's bytes, checking size and type tag first.
pub fn decode_record(data: &Vec<u8>) -> (r: Result<MyNewAccount, CustomError>)
    ensures
        match r {
            Ok(rec) => record_of(data@) == Some(rec@),
            Err(e) => e == CustomError::MalformedRecord && record_of(data@) is None,
        },
{
    if data.len() != RECORD_SIZE {
        return Err(CustomError::MalformedRecord);
    }
    let tag = account_discriminator();
    let mut i: usize = 0;
    while i < DISCRIMINATOR_LEN
        invariant
            i <= DISCRIMINATOR_LEN,
            data@.len() == RECORD_SIZE,
            tag@ == discriminator(),
            forall|j: int| 0 <= j < i ==> data@[j] == discriminator()[j],
        decreases DISCRIMINATOR_LEN - i,
    {
        if data[i] != tag[i] {
            assert(data@.subrange(0, 8)[i as int] != discriminator()[i as int]);
            return Err(CustomError::MalformedRecord);
        }
        i = i + 1;
    }
    assert(data@.subrange(0, 8) =~= discriminator());
    let mut owner: [u8; 32] = [0u8; 32];
    let mut j: usize = 0;
    while j < IDENTITY_LEN
        invariant
            j <= IDENTITY_LEN,
            data@.len() == RECORD_SIZE,
            owner@.len() == IDENTITY_LEN,
            forall|k: int| 0 <= k < j ==> owner@[k] == data@[k + 8],
        decreases IDENTITY_LEN - j,
    {
        owner[j] = data[j + 8];
        j = j + 1;
    }
    assert(owner@ =~= data@.subrange(8, 40));
    let payload: u64 = (data[40] as u64) | ((data[41] as u64) << 8u64) | ((data[42] as u64)
        << 16u64) | ((data[43] as u64) << 24u64) | ((data[44] as u64) << 32u64) | ((data[45]
        as u64) << 40u64) | ((data[46] as u64) << 48u64) | ((data[47] as u64) << 56u64);
    assert(payload == le_value(data@.subrange(40, 48)));
    Ok(MyNewAccount { owner: Identity { bytes: owner }, data: payload })
}

} // verus!
