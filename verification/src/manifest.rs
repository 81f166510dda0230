//! The quarantine manifest: the magic bytes `NKQ1`, then for each record the
//! original path and the quarantine path, each as a little-endian `u64`
//! length followed by the raw pathname bytes, and the size as a
//! little-endian `u64`. Pathnames are stored as raw bytes, so any UNIX name
//! survives the round trip.
use vstd::prelude::*;
use crate::model::{QuarantineRecord, RecordView, records_view};
use crate::pathname::copy_range;

verus! {

/// The magic bytes that open a manifest: `NKQ1`.
pub open spec fn manifest_magic() -> Seq<u8> {
    seq![78u8, 75u8, 81u8, 49u8]
}

/// The little-endian bytes of `x` (`u64::to_le_bytes`).
#[verifier::opaque]
pub open spec fn u64_le(x: u64) -> Seq<u8> {
    seq![
        (x % 0x100) as u8,
        ((x / 0x100) % 0x100) as u8,
        ((x / 0x10000) % 0x100) as u8,
        ((x / 0x1000000) % 0x100) as u8,
        ((x / 0x100000000) % 0x100) as u8,
        ((x / 0x10000000000) % 0x100) as u8,
        ((x / 0x1000000000000) % 0x100) as u8,
        ((x / 0x100000000000000) % 0x100) as u8,
    ]
}

/// The value of the first eight bytes of `b`, little-endian
/// (`u64::from_le_bytes`).
#[verifier::opaque]
pub open spec fn le_u64(b: Seq<u8>) -> u64 {
    (b[0] as u64 + b[1] as u64 * 0x100 + b[2] as u64 * 0x10000 + b[3] as u64 * 0x1000000 + b[4] as u64
        * 0x100000000 + b[5] as u64 * 0x10000000000 + b[6] as u64 * 0x1000000000000 + b[7] as u64
        * 0x100000000000000) as u64
}

/// A pathname as the manifest stores it: its length, then its bytes.
pub open spec fn encode_path(p: Seq<u8>) -> Seq<u8> {
    u64_le(p.len() as u64) + p
}

/// A record as the manifest stores it.
pub open spec fn encode_record(r: RecordView) -> Seq<u8> {
    encode_path(r.original_path) + encode_path(r.quarantine_path) + u64_le(r.size)
}

/// The records, one after another.
pub open spec fn encode_records(rs: Seq<RecordView>) -> Seq<u8>
    decreases rs.len(),
{
    if rs.len() == 0 {
        seq![]
    } else {
        encode_record(rs[0]) + encode_records(rs.drop_first())
    }
}

/// The bytes of a manifest that lists `rs`.
pub open spec fn encode_manifest(rs: Seq<RecordView>) -> Seq<u8> {
    manifest_magic() + encode_records(rs)
}

/// Why a manifest cannot be read.
#[derive(Debug, Clone, Copy, PartialEq, Eq, Structural)]
pub enum ManifestError {
    /// The bytes end inside the magic or inside a record.
    Truncated,
    /// The file does not start with the manifest magic.
    BadMagic,
    /// A stored path length does not fit in a `usize`.
    PathTooLong,
}

/// The records stored in `b`: where fewer than eight bytes are left at the
/// start of a record the list ends; a record cut short anywhere after its
/// first length is an error.
pub open spec fn decode_records(b: Seq<u8>) -> Result<Seq<RecordView>, ManifestError>
    decreases b.len(),
{
    if b.len() < 8 {
        Ok(seq![])
    } else {
        let l1 = le_u64(b);
        let r1 = b.skip(8);
        if l1 > usize::MAX {
            Err(ManifestError::PathTooLong)
        } else if r1.len() < l1 {
            Err(ManifestError::Truncated)
        } else {
            let original = r1.take(l1 as int);
            let r2 = r1.skip(l1 as int);
            if r2.len() < 8 {
                Err(ManifestError::Truncated)
            } else {
                let l2 = le_u64(r2);
                let r3 = r2.skip(8);
                if l2 > usize::MAX {
                    Err(ManifestError::PathTooLong)
                } else if r3.len() < l2 {
                    Err(ManifestError::Truncated)
                } else {
                    let quarantined = r3.take(l2 as int);
                    let r4 = r3.skip(l2 as int);
                    if r4.len() < 8 {
                        Err(ManifestError::Truncated)
                    } else {
                        let record = RecordView {
                            original_path: original,
                            quarantine_path: quarantined,
                            size: le_u64(r4),
                        };
                        match decode_records(r4.skip(8)) {
                            Ok(rest) => Ok(seq![record] + rest),
                            Err(e) => Err(e),
                        }
                    }
                }
            }
        }
    }
}

/// The records of a manifest file's bytes.
pub open spec fn decode_manifest(b: Seq<u8>) -> Result<Seq<RecordView>, ManifestError> {
    if b.len() < 4 {
        Err(ManifestError::Truncated)
    } else if b.take(4) != manifest_magic() {
        Err(ManifestError::BadMagic)
    } else {
        decode_records(b.skip(4))
    }
}

/// Whether the first four bytes of a file are the manifest magic.
pub fn is_manifest_magic(head: &[u8]) -> (r: bool)
    ensures
        r == (head@.len() >= 4 && head@.take(4) == manifest_magic()),
{
    if head.len() < 4 {
        return false;
    }
    let r = head[0] == 78u8 && head[1] == 75u8 && head[2] == 81u8 && head[3] == 49u8;
    assert(r == (head@.take(4) =~= manifest_magic()));
    r
}

fn push_u64_le(out: &mut Vec<u8>, x: u64)
    ensures
        final(out)@ == old(out)@ + u64_le(x),
{
    proof {
        reveal(u64_le);
    }
    out.push((x % 0x100) as u8);
    out.push(((x / 0x100) % 0x100) as u8);
    out.push(((x / 0x10000) % 0x100) as u8);
    out.push(((x / 0x1000000) % 0x100) as u8);
    out.push(((x / 0x100000000) % 0x100) as u8);
    out.push(((x / 0x10000000000) % 0x100) as u8);
    out.push(((x / 0x1000000000000) % 0x100) as u8);
    out.push(((x / 0x100000000000000) % 0x100) as u8);
    assert(final(out)@ =~= old(out)@ + u64_le(x));
}

fn push_bytes(out: &mut Vec<u8>, b: &[u8])
    ensures
        final(out)@ == old(out)@ + b@,
{
    let mut i: usize = 0;
    while i < b.len()
        invariant
            i <= b@.len(),
            out@ == old(out)@ + b@.subrange(0, i as int),
        decreases b@.len() - i,
    {
        out.push(b[i]);
        i = i + 1;
        assert(out@ =~= old(out)@ + b@.subrange(0, i as int));
    }
    assert(b@.subrange(0, b@.len() as int) =~= b@);
}

proof fn lemma_encode_records_push(rs: Seq<RecordView>, r: RecordView)
    ensures
        encode_records(rs.push(r)) == encode_records(rs) + encode_record(r),
    decreases rs.len(),
{
    if rs.len() == 0 {
        assert(rs.push(r).drop_first() =~= Seq::<RecordView>::empty());
        assert(rs.push(r)[0] == r);
        assert(encode_records(Seq::<RecordView>::empty()) == Seq::<u8>::empty());
        assert(encode_records(rs) == Seq::<u8>::empty());
        assert(encode_records(rs.push(r)) == encode_record(r) + Seq::<u8>::empty());
        assert(encode_records(rs.push(r)) =~= encode_records(rs) + encode_record(r));
    } else {
        assert(rs.push(r).drop_first() =~= rs.drop_first().push(r));
        lemma_encode_records_push(rs.drop_first(), r);
        assert(encode_records(rs.push(r)) =~= encode_records(rs) + encode_record(r));
    }
}

/// The bytes of the manifest that lists `records` (see `encode_manifest`).
/// Requires every path length to fit in a `u64`, as writing it does.
pub fn encode_quarantine_manifest(records: &Vec<QuarantineRecord>) -> (bytes: Vec<u8>)
    requires
        forall|k: int|
            0 <= k < records@.len() ==> (#[trigger] records@[k]).original_path@.len() <= u64::MAX
                && records@[k].quarantine_path@.len() <= u64::MAX,
    ensures
        bytes@ == encode_manifest(records_view(records@)),
{
    let mut out: Vec<u8> = vec![78u8, 75u8, 81u8, 49u8];
    let ghost rv = records_view(records@);
    let mut i: usize = 0;
    assert(rv.subrange(0, 0) =~= Seq::<RecordView>::empty());
    assert(out@ =~= manifest_magic() + encode_records(rv.subrange(0, 0)));
    while i < records.len()
        invariant
            i <= records@.len(),
            rv == records_view(records@),
            rv.len() == records@.len(),
            forall|k: int|
                0 <= k < records@.len() ==> (#[trigger] records@[k]).original_path@.len() <= u64::MAX
                    && records@[k].quarantine_path@.len() <= u64::MAX,
            out@ == manifest_magic() + encode_records(rv.subrange(0, i as int)),
        decreases records@.len() - i,
    {
        let r = &records[i];
        let ghost before = out@;
        push_u64_le(&mut out, r.original_path.len() as u64);
        push_bytes(&mut out, r.original_path.as_slice());
        push_u64_le(&mut out, r.quarantine_path.len() as u64);
        push_bytes(&mut out, r.quarantine_path.as_slice());
        push_u64_le(&mut out, r.size);
        proof {
            assert(rv[i as int] == r@);
            assert(out@ =~= before + encode_record(rv[i as int]));
            assert(rv.subrange(0, i + 1) =~= rv.subrange(0, i as int).push(rv[i as int]));
            lemma_encode_records_push(rv.subrange(0, i as int), rv[i as int]);
        }
        i = i + 1;
    }
    assert(rv.subrange(0, records@.len() as int) =~= rv);
    out
}

fn read_u64_le(b: &[u8], at: usize) -> (r: u64)
    requires
        at + 8 <= b@.len(),
    ensures
        r == le_u64(b@.skip(at as int)),
{
    proof {
        reveal(le_u64);
    }
    let r = b[at] as u64 + b[at + 1] as u64 * 0x100 + b[at + 2] as u64 * 0x10000 + b[at + 3] as u64
        * 0x1000000 + b[at + 4] as u64 * 0x100000000 + b[at + 5] as u64 * 0x10000000000 + b[at + 6]
        as u64 * 0x1000000000000 + b[at + 7] as u64 * 0x100000000000000;
    r
}

/// The records of a manifest (see `decode_manifest`).
pub fn parse_quarantine_manifest(bytes: &[u8]) -> (r: Result<Vec<QuarantineRecord>, ManifestError>)
    ensures
        match r {
            Ok(rs) => decode_manifest(bytes@) == Ok::<Seq<RecordView>, ManifestError>(records_view(rs@)),
            Err(e) => decode_manifest(bytes@) == Err::<Seq<RecordView>, ManifestError>(e),
        },
{
    let n = bytes.len();
    if n < 4 {
        return Err(ManifestError::Truncated);
    }
    if !is_manifest_magic(bytes) {
        return Err(ManifestError::BadMagic);
    }
    let ghost whole = bytes@.skip(4);
    let mut records: Vec<QuarantineRecord> = Vec::new();
    let mut at: usize = 4;
    loop
        invariant
            4 <= at <= n,
            n == bytes@.len(),
            whole == bytes@.skip(4),
            decode_manifest(bytes@) == decode_records(whole),
            match decode_records(bytes@.skip(at as int)) {
                Ok(rest) => decode_records(whole) == Ok::<Seq<RecordView>, ManifestError>(
                    records_view(records@) + rest,
                ),
                Err(e) => decode_records(whole) == Err::<Seq<RecordView>, ManifestError>(e),
            },
        decreases n - at,
    {
        let ghost b = bytes@.skip(at as int);
        if n - at < 8 {
            assert(decode_records(b) == Ok::<Seq<RecordView>, ManifestError>(Seq::<RecordView>::empty()));
            assert(records_view(records@) + Seq::<RecordView>::empty() =~= records_view(records@));
            return Ok(records);
        }
        let l1 = read_u64_le(bytes, at);
        assert(b.skip(8) =~= bytes@.skip(at + 8));
        if l1 > usize::MAX as u64 {
            return Err(ManifestError::PathTooLong);
        }
        let l1 = l1 as usize;
        let p1 = at + 8;
        if n - p1 < l1 {
            return Err(ManifestError::Truncated);
        }
        let original = copy_range(bytes, p1, p1 + l1);
        let p2 = p1 + l1;
        assert(original@ =~= b.skip(8).take(l1 as int));
        assert(b.skip(8).skip(l1 as int) =~= bytes@.skip(p2 as int));
        if n - p2 < 8 {
            return Err(ManifestError::Truncated);
        }
        let l2 = read_u64_le(bytes, p2);
        assert(bytes@.skip(p2 as int).skip(8) =~= bytes@.skip(p2 + 8));
        if l2 > usize::MAX as u64 {
            return Err(ManifestError::PathTooLong);
        }
        let l2 = l2 as usize;
        let p3 = p2 + 8;
        if n - p3 < l2 {
            return Err(ManifestError::Truncated);
        }
        let quarantined = copy_range(bytes, p3, p3 + l2);
        let p4 = p3 + l2;
        assert(quarantined@ =~= bytes@.skip(p3 as int).take(l2 as int));
        assert(bytes@.skip(p3 as int).skip(l2 as int) =~= bytes@.skip(p4 as int));
        if n - p4 < 8 {
            return Err(ManifestError::Truncated);
        }
        let size = read_u64_le(bytes, p4);
        assert(bytes@.skip(p4 as int).skip(8) =~= bytes@.skip(p4 + 8));
        let record = QuarantineRecord { original_path: original, quarantine_path: quarantined, size };
        let ghost old_records = records@;
        records.push(record);
        proof {
            assert(records@ == old_records.push(record));
            assert(records_view(records@) =~= records_view(old_records).push(record@));
            match decode_records(bytes@.skip(p4 + 8)) {
                Ok(rest) => {
                    assert(decode_records(b) == Ok::<Seq<RecordView>, ManifestError>(seq![record@] + rest));
                    assert(records_view(old_records) + (seq![record@] + rest) =~= records_view(records@)
                        + rest);
                },
                Err(e) => {
                    assert(decode_records(b) == Err::<Seq<RecordView>, ManifestError>(e));
                },
            }
        }
        at = p4 + 8;
    }
}

proof fn lemma_le_roundtrip(x: u64, rest: Seq<u8>)
    ensures
        le_u64(u64_le(x) + rest) == x,
        u64_le(x).len() == 8,
{
    reveal(le_u64);
    reveal(u64_le);
    let b = u64_le(x) + rest;
    assert(b[0] as u64 == x % 0x100);
    assert(b[1] as u64 == (x / 0x100) % 0x100);
    assert(b[2] as u64 == (x / 0x10000) % 0x100);
    assert(b[3] as u64 == (x / 0x1000000) % 0x100);
    assert(b[4] as u64 == (x / 0x100000000) % 0x100);
    assert(b[5] as u64 == (x / 0x10000000000) % 0x100);
    assert(b[6] as u64 == (x / 0x1000000000000) % 0x100);
    assert(b[7] as u64 == (x / 0x100000000000000) % 0x100);
    assert(x % 0x100 + (x / 0x100) % 0x100 * 0x100 + (x / 0x10000) % 0x100 * 0x10000 + (x / 0x1000000)
        % 0x100 * 0x1000000 + (x / 0x100000000) % 0x100 * 0x100000000 + (x / 0x10000000000) % 0x100
        * 0x10000000000 + (x / 0x1000000000000) % 0x100 * 0x1000000000000 + (x / 0x100000000000000)
        % 0x100 * 0x100000000000000 == x) by (bit_vector);
}

/// Whether every path of the records fits the manifest's length field.
pub open spec fn records_fit(rs: Seq<RecordView>) -> bool {
    forall|k: int|
        0 <= k < rs.len() ==> (#[trigger] rs[k]).original_path.len() <= usize::MAX
            && rs[k].quarantine_path.len() <= usize::MAX
}

proof fn lemma_records_roundtrip(rs: Seq<RecordView>)
    requires
        records_fit(rs),
    ensures
        decode_records(encode_records(rs)) == Ok::<Seq<RecordView>, ManifestError>(rs),
    decreases rs.len(),
{
    if rs.len() == 0 {
        assert(encode_records(rs) =~= Seq::<u8>::empty());
        assert(rs =~= Seq::<RecordView>::empty());
    } else {
        let r = rs[0];
        let tail = rs.drop_first();
        assert(records_fit(tail)) by {
            assert forall|k: int| 0 <= k < tail.len() implies (#[trigger] tail[k]).original_path.len()
                <= usize::MAX && tail[k].quarantine_path.len() <= usize::MAX by {
                assert(tail[k] == rs[k + 1]);
            }
        }
        lemma_records_roundtrip(tail);
        let t = encode_records(tail);
        let o = r.original_path;
        let q = r.quarantine_path;
        let b = encode_records(rs);
        lemma_le_roundtrip(o.len() as u64, o + u64_le(q.len() as u64) + q + u64_le(r.size) + t);
        lemma_le_roundtrip(q.len() as u64, q + u64_le(r.size) + t);
        lemma_le_roundtrip(r.size, t);
        assert(b =~= u64_le(o.len() as u64) + (o + u64_le(q.len() as u64) + q + u64_le(r.size) + t));
        let r1 = b.skip(8);
        assert(r1 =~= o + u64_le(q.len() as u64) + q + u64_le(r.size) + t);
        assert(r1.take(o.len() as int) =~= o);
        let r2 = r1.skip(o.len() as int);
        assert(r2 =~= u64_le(q.len() as u64) + (q + u64_le(r.size) + t));
        let r3 = r2.skip(8);
        assert(r3 =~= q + u64_le(r.size) + t);
        assert(r3.take(q.len() as int) =~= q);
        let r4 = r3.skip(q.len() as int);
        assert(r4 =~= u64_le(r.size) + t);
        assert(r4.skip(8) =~= t);
        assert(seq![r] + tail =~= rs);
    }
}

/// A manifest written for records whose path lengths fit a `usize` reads
/// back as exactly those records.
pub proof fn lemma_manifest_roundtrip(rs: Seq<RecordView>)
    requires
        records_fit(rs),
    ensures
        decode_manifest(encode_manifest(rs)) == Ok::<Seq<RecordView>, ManifestError>(rs),
{
    lemma_records_roundtrip(rs);
    let b = encode_manifest(rs);
    assert(b.take(4) =~= manifest_magic());
    assert(b.skip(4) =~= encode_records(rs));
}

} // verus!
