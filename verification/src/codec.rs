//! The wire envelope: named, length-prefixed byte strings around the
//! canonical compressed encodings of a proof's and a commitment's parts.
//!
//! A field is framed as `[key length][key bytes][value length][value bytes]`.
//! Writing is exact, and parsing is strict: a parse succeeds on precisely the
//! frames the writer emits around canonical point encodings, so a round trip
//! returns the value that was written.

use vstd::prelude::*;

use crate::backend::{
    bytes_eq, fr_deserialize, fr_ser, fr_serialize, g1_deserialize, g1_same_point, g1_ser,
    g1_serialize, G1Point, Scalar,
};
use crate::lvc::Proof;
use crate::LvcError;

verus! {

/// One envelope frame: the key and the value, each behind a one-byte length.
pub open spec fn frame(key: Seq<u8>, val: Seq<u8>) -> Seq<u8> {
    seq![key.len() as u8] + key + seq![val.len() as u8] + val
}

/// The key naming the `r_tau` field: the bytes of `"r_tau"`.
pub open spec fn key_r_tau() -> Seq<u8> {
    seq![114u8, 95u8, 116u8, 97u8, 117u8]
}

/// The key naming the `h_tau` field: the bytes of `"h_tau"`.
pub open spec fn key_h_tau() -> Seq<u8> {
    seq![104u8, 95u8, 116u8, 97u8, 117u8]
}

/// The key naming the `r_hat_tau` field: the bytes of `"r_hat_tau"`.
pub open spec fn key_r_hat_tau() -> Seq<u8> {
    seq![114u8, 95u8, 104u8, 97u8, 116u8, 95u8, 116u8, 97u8, 117u8]
}

/// The key naming the `y` field: the bytes of `"y"`.
pub open spec fn key_y() -> Seq<u8> {
    seq![121u8]
}

/// The key naming a commitment: the bytes of `"c"`.
pub open spec fn key_c() -> Seq<u8> {
    seq![99u8]
}

/// The envelope of a proof: its four fields framed in order.
pub open spec fn proof_bytes(p: Proof) -> Seq<u8> {
    frame(key_r_tau(), g1_ser(p.r_tau)) + frame(key_h_tau(), g1_ser(p.h_tau)) + frame(
        key_r_hat_tau(),
        g1_ser(p.r_hat_tau),
    ) + frame(key_y(), fr_ser(p.y))
}

/// The envelope of a commitment: one framed field.
pub open spec fn commitment_bytes(c: G1Point) -> Seq<u8> {
    frame(key_c(), g1_ser(c))
}

/// The encodings of a proof's parts have their canonical sizes: 48 bytes per
/// `G1` point and 32 per scalar.  Every proof has this; it is recorded so
/// that parsing can be related to writing.
pub open spec fn proof_enc_wf(p: Proof) -> bool {
    &&& g1_ser(p.r_tau).len() == 48
    &&& g1_ser(p.h_tau).len() == 48
    &&& g1_ser(p.r_hat_tau).len() == 48
    &&& fr_ser(p.y).len() == 32
}

/// Two proofs carry the same opening: equal `y` and pointwise equal curve
/// points (a `G1` value may change projective representation on a round
/// trip; the point itself does not).
pub open spec fn proof_matches(p: Proof, q: Proof) -> bool {
    &&& g1_same_point(p.r_tau, q.r_tau)
    &&& g1_same_point(p.h_tau, q.h_tau)
    &&& g1_same_point(p.r_hat_tau, q.r_hat_tau)
    &&& p.y == q.y
}

/// Appends one frame to the buffer.
fn push_frame(out: &mut Vec<u8>, key: &Vec<u8>, val: &Vec<u8>)
    requires
        key@.len() < 256,
        val@.len() < 256,
    ensures
        final(out)@ == old(out)@ + frame(key@, val@),
{
    out.push(key.len() as u8);
    let mut i: usize = 0;
    while i < key.len()
        invariant
            i <= key@.len(),
            out@ == old(out)@ + seq![key@.len() as u8] + key@.take(i as int),
        decreases key@.len() - i,
    {
        out.push(key[i]);
        proof {
            assert(key@.take(i + 1) =~= key@.take(i as int) + seq![key@[i as int]]);
        }
        i = i + 1;
    }
    out.push(val.len() as u8);
    let mut j: usize = 0;
    while j < val.len()
        invariant
            j <= val@.len(),
            out@ == old(out)@ + seq![key@.len() as u8] + key@.take(key@.len() as int) + seq![
                val@.len() as u8,
            ] + val@.take(j as int),
        decreases val@.len() - j,
    {
        out.push(val[j]);
        proof {
            assert(val@.take(j + 1) =~= val@.take(j as int) + seq![val@[j as int]]);
        }
        j = j + 1;
    }
    proof {
        assert(key@.take(key@.len() as int) =~= key@);
        assert(val@.take(val@.len() as int) =~= val@);
        assert(out@ =~= old(out)@ + frame(key@, val@));
    }
}

/// The bytes of `"r_tau"`.
fn key_r_tau_vec() -> (r: Vec<u8>)
    ensures
        r@ == key_r_tau(),
{
    let mut v: Vec<u8> = Vec::new();
    v.push(114u8);
    v.push(95u8);
    v.push(116u8);
    v.push(97u8);
    v.push(117u8);
    proof {
        assert(v@ =~= key_r_tau());
    }
    v
}

/// The bytes of `"h_tau"`.
fn key_h_tau_vec() -> (r: Vec<u8>)
    ensures
        r@ == key_h_tau(),
{
    let mut v: Vec<u8> = Vec::new();
    v.push(104u8);
    v.push(95u8);
    v.push(116u8);
    v.push(97u8);
    v.push(117u8);
    proof {
        assert(v@ =~= key_h_tau());
    }
    v
}

/// The bytes of `"r_hat_tau"`.
fn key_r_hat_tau_vec() -> (r: Vec<u8>)
    ensures
        r@ == key_r_hat_tau(),
{
    let mut v: Vec<u8> = Vec::new();
    v.push(114u8);
    v.push(95u8);
    v.push(104u8);
    v.push(97u8);
    v.push(116u8);
    v.push(95u8);
    v.push(116u8);
    v.push(97u8);
    v.push(117u8);
    proof {
        assert(v@ =~= key_r_hat_tau());
    }
    v
}

/// Writes the envelope of a proof.
pub fn proof_to_bytes(p: &Proof) -> (r: Vec<u8>)
    ensures
        r@ == proof_bytes(*p),
        proof_enc_wf(*p),
{
    let mut out: Vec<u8> = Vec::new();
    let kr = key_r_tau_vec();
    let kh = key_h_tau_vec();
    let krh = key_r_hat_tau_vec();
    let mut ky: Vec<u8> = Vec::new();
    ky.push(121u8);
    proof {
        assert(ky@ =~= key_y());
    }
    push_frame(&mut out, &kr, &g1_serialize(&p.r_tau));
    push_frame(&mut out, &kh, &g1_serialize(&p.h_tau));
    push_frame(&mut out, &krh, &g1_serialize(&p.r_hat_tau));
    push_frame(&mut out, &ky, &fr_serialize(&p.y));
    proof {
        assert(out@ =~= proof_bytes(*p));
    }
    out
}

/// Writes the envelope of a commitment.
pub fn commitment_to_bytes(c: &G1Point) -> (r: Vec<u8>)
    ensures
        r@ == commitment_bytes(*c),
        g1_ser(*c).len() == 48,
{
    let mut out: Vec<u8> = Vec::new();
    let mut kc: Vec<u8> = Vec::new();
    kc.push(99u8);
    proof {
        assert(kc@ =~= key_c());
    }
    push_frame(&mut out, &kc, &g1_serialize(c));
    proof {
        assert(out@ =~= commitment_bytes(*c));
    }
    out
}

/// Copies `len` bytes starting at `start`.
fn seg(bytes: &[u8], start: usize, len: usize) -> (r: Vec<u8>)
    requires
        start + len <= bytes@.len(),
    ensures
        r@ == bytes@.subrange(start as int, start as int + len as int),
{
    let mut out: Vec<u8> = Vec::new();
    let n = bytes.len();
    let mut i: usize = 0;
    while i < len
        invariant
            i <= len,
            start + len <= n,
            n == bytes@.len(),
            out@ == bytes@.subrange(start as int, start as int + i as int),
        decreases len - i,
    {
        out.push(bytes[start + i]);
        proof {
            assert(bytes@.subrange(start as int, start as int + i + 1) =~= bytes@.subrange(
                start as int,
                start as int + i as int,
            ) + seq![bytes@[start as int + i as int]]);
        }
        i = i + 1;
    }
    out
}

/// The byte layout of a well-formed proof envelope: 204 bytes, the four
/// headers at fixed offsets, and the four value segments.
proof fn lemma_proof_bytes_layout(q: Proof)
    requires
        proof_enc_wf(q),
    ensures
        proof_bytes(q).len() == 204,
        proof_bytes(q).subrange(7, 55) == g1_ser(q.r_tau),
        proof_bytes(q).subrange(62, 110) == g1_ser(q.h_tau),
        proof_bytes(q).subrange(121, 169) == g1_ser(q.r_hat_tau),
        proof_bytes(q).subrange(172, 204) == fr_ser(q.y),
        proof_bytes(q).subrange(0, 7) == seq![5u8, 114u8, 95u8, 116u8, 97u8, 117u8, 48u8],
        proof_bytes(q).subrange(55, 62) == seq![5u8, 104u8, 95u8, 116u8, 97u8, 117u8, 48u8],
        proof_bytes(q).subrange(110, 121) == seq![
            9u8,
            114u8,
            95u8,
            104u8,
            97u8,
            116u8,
            95u8,
            116u8,
            97u8,
            117u8,
            48u8,
        ],
        proof_bytes(q).subrange(169, 172) == seq![1u8, 121u8, 32u8],
{
    let b = proof_bytes(q);
    assert(frame(key_r_tau(), g1_ser(q.r_tau)).len() == 55);
    assert(frame(key_h_tau(), g1_ser(q.h_tau)).len() == 55);
    assert(frame(key_r_hat_tau(), g1_ser(q.r_hat_tau)).len() == 59);
    assert(frame(key_y(), fr_ser(q.y)).len() == 35);
    assert(b.subrange(7, 55) =~= g1_ser(q.r_tau));
    assert(b.subrange(62, 110) =~= g1_ser(q.h_tau));
    assert(b.subrange(121, 169) =~= g1_ser(q.r_hat_tau));
    assert(b.subrange(172, 204) =~= fr_ser(q.y));
    assert(b.subrange(0, 7) =~= seq![5u8, 114u8, 95u8, 116u8, 97u8, 117u8, 48u8]);
    assert(b.subrange(55, 62) =~= seq![5u8, 104u8, 95u8, 116u8, 97u8, 117u8, 48u8]);
    assert(b.subrange(110, 121) =~= seq![
        9u8,
        114u8,
        95u8,
        104u8,
        97u8,
        116u8,
        95u8,
        116u8,
        97u8,
        117u8,
        48u8,
    ]);
    assert(b.subrange(169, 172) =~= seq![1u8, 121u8, 32u8]);
}

/// Whether the fixed header bytes of a proof envelope are in place.
fn headers_ok(bytes: &[u8]) -> (r: bool)
    requires
        bytes@.len() == 204,
    ensures
        r <==> {
            &&& bytes@.subrange(0, 7) == seq![5u8, 114u8, 95u8, 116u8, 97u8, 117u8, 48u8]
            &&& bytes@.subrange(55, 62) == seq![5u8, 104u8, 95u8, 116u8, 97u8, 117u8, 48u8]
            &&& bytes@.subrange(110, 121) == seq![
                9u8,
                114u8,
                95u8,
                104u8,
                97u8,
                116u8,
                95u8,
                116u8,
                97u8,
                117u8,
                48u8,
            ]
            &&& bytes@.subrange(169, 172) == seq![1u8, 121u8, 32u8]
        },
{
    let h1 = bytes[0] == 5 && bytes[1] == 114 && bytes[2] == 95 && bytes[3] == 116 && bytes[4]
        == 97 && bytes[5] == 117 && bytes[6] == 48;
    let h2 = bytes[55] == 5 && bytes[56] == 104 && bytes[57] == 95 && bytes[58] == 116
        && bytes[59] == 97 && bytes[60] == 117 && bytes[61] == 48;
    let h3 = bytes[110] == 9 && bytes[111] == 114 && bytes[112] == 95 && bytes[113] == 104
        && bytes[114] == 97 && bytes[115] == 116 && bytes[116] == 95 && bytes[117] == 116
        && bytes[118] == 97 && bytes[119] == 117 && bytes[120] == 48;
    let h4 = bytes[169] == 1 && bytes[170] == 121 && bytes[171] == 32;
    proof {
        assert(h1 <==> bytes@.subrange(0, 7) =~= seq![5u8, 114u8, 95u8, 116u8, 97u8, 117u8, 48u8]);
        assert(h2 <==> bytes@.subrange(55, 62) =~= seq![
            5u8,
            104u8,
            95u8,
            116u8,
            97u8,
            117u8,
            48u8,
        ]);
        assert(h3 <==> bytes@.subrange(110, 121) =~= seq![
            9u8,
            114u8,
            95u8,
            104u8,
            97u8,
            116u8,
            95u8,
            116u8,
            97u8,
            117u8,
            48u8,
        ]);
        assert(h4 <==> bytes@.subrange(169, 172) =~= seq![1u8, 121u8, 32u8]);
    }
    h1 && h2 && h3 && h4
}

/// Parses a proof envelope, strictly: a parse succeeds exactly on the
/// writer's output, so parsing what `proof_to_bytes` wrote returns the
/// written proof (up to projective representation of the points), and a
/// successful parse means the input is the envelope of the returned proof —
/// anything else is rejected with the serialization error.  Each decoded
/// value is re-encoded and compared with its segment, so a non-canonical
/// point encoding the backend would admit is rejected here.
pub fn proof_from_bytes(bytes: &[u8]) -> (r: Result<Proof, LvcError>)
    ensures
        forall|q: Proof|
            proof_enc_wf(q) && bytes@ == #[trigger] proof_bytes(q) ==> r is Ok && proof_matches(
                r->Ok_0,
                q,
            ),
        r is Ok ==> bytes@ == proof_bytes(r->Ok_0) && proof_enc_wf(r->Ok_0),
        r is Err ==> r == Err::<Proof, LvcError>(LvcError::SerializationInvalid),
{
    if bytes.len() != 204 {
        proof {
            assert forall|q: Proof|
                proof_enc_wf(q) && bytes@ == #[trigger] proof_bytes(q) implies false by {
                lemma_proof_bytes_layout(q);
            }
        }
        return Err(LvcError::SerializationInvalid);
    }
    let hok = headers_ok(bytes);
    let s1 = seg(bytes, 7, 48);
    let s2 = seg(bytes, 62, 48);
    let s3 = seg(bytes, 121, 48);
    let s4 = seg(bytes, 172, 32);
    let o1 = g1_deserialize(s1.as_slice());
    let o2 = g1_deserialize(s2.as_slice());
    let o3 = g1_deserialize(s3.as_slice());
    let o4 = fr_deserialize(s4.as_slice());
    proof {
        assert forall|q: Proof|
            proof_enc_wf(q) && bytes@ == #[trigger] proof_bytes(q) implies {
            &&& hok
            &&& s1@ == g1_ser(q.r_tau)
            &&& s2@ == g1_ser(q.h_tau)
            &&& s3@ == g1_ser(q.r_hat_tau)
            &&& s4@ == fr_ser(q.y)
        } by {
            lemma_proof_bytes_layout(q);
        }
    }
    if !hok {
        return Err(LvcError::SerializationInvalid);
    }
    match (o1, o2, o3, o4) {
        (Some(r_tau), Some(h_tau), Some(r_hat_tau), Some(y)) => {
            let b1 = g1_serialize(&r_tau);
            let b2 = g1_serialize(&h_tau);
            let b3 = g1_serialize(&r_hat_tau);
            let b4 = fr_serialize(&y);
            let canonical = bytes_eq(&b1, &s1) && bytes_eq(&b2, &s2) && bytes_eq(&b3, &s3)
                && bytes_eq(&b4, &s4);
            if !canonical {
                proof {
                    assert forall|q: Proof|
                        proof_enc_wf(q) && bytes@ == #[trigger] proof_bytes(q) implies false by {
                        lemma_proof_bytes_layout(q);
                    }
                }
                return Err(LvcError::SerializationInvalid);
            }
            let p = Proof { r_tau, h_tau, r_hat_tau, y };
            proof {
                lemma_proof_bytes_layout(p);
                assert forall|i: int| 0 <= i < 204 implies bytes@[i] == proof_bytes(p)[i] by {
                    if i < 7 {
                        assert(bytes@.subrange(0, 7)[i] == bytes@[i]);
                        assert(proof_bytes(p).subrange(0, 7)[i] == proof_bytes(p)[i]);
                    } else if i < 55 {
                        assert(bytes@.subrange(7, 55)[i - 7] == bytes@[i]);
                        assert(proof_bytes(p).subrange(7, 55)[i - 7] == proof_bytes(p)[i]);
                    } else if i < 62 {
                        assert(bytes@.subrange(55, 62)[i - 55] == bytes@[i]);
                        assert(proof_bytes(p).subrange(55, 62)[i - 55] == proof_bytes(p)[i]);
                    } else if i < 110 {
                        assert(bytes@.subrange(62, 110)[i - 62] == bytes@[i]);
                        assert(proof_bytes(p).subrange(62, 110)[i - 62] == proof_bytes(p)[i]);
                    } else if i < 121 {
                        assert(bytes@.subrange(110, 121)[i - 110] == bytes@[i]);
                        assert(proof_bytes(p).subrange(110, 121)[i - 110] == proof_bytes(p)[i]);
                    } else if i < 169 {
                        assert(bytes@.subrange(121, 169)[i - 121] == bytes@[i]);
                        assert(proof_bytes(p).subrange(121, 169)[i - 121] == proof_bytes(p)[i]);
                    } else if i < 172 {
                        assert(bytes@.subrange(169, 172)[i - 169] == bytes@[i]);
                        assert(proof_bytes(p).subrange(169, 172)[i - 169] == proof_bytes(p)[i]);
                    } else {
                        assert(bytes@.subrange(172, 204)[i - 172] == bytes@[i]);
                        assert(proof_bytes(p).subrange(172, 204)[i - 172] == proof_bytes(p)[i]);
                    }
                }
                assert(bytes@ =~= proof_bytes(p));
            }
            Ok(p)
        },
        _ => Err(LvcError::SerializationInvalid),
    }
}

/// Parses a commitment envelope, strictly: a parse succeeds exactly on the
/// writer's output, and a successful parse means the input is the envelope
/// of the returned point.  The decoded point is re-encoded and compared with
/// its segment, so a non-canonical encoding the backend would admit is
/// rejected here.
pub fn commitment_from_bytes(bytes: &[u8]) -> (r: Result<G1Point, LvcError>)
    ensures
        forall|c: G1Point|
            g1_ser(c).len() == 48 && bytes@ == #[trigger] commitment_bytes(c) ==> r is Ok
                && g1_same_point(r->Ok_0, c),
        r is Ok ==> bytes@ == commitment_bytes(r->Ok_0) && g1_ser(r->Ok_0).len() == 48,
        r is Err ==> r == Err::<G1Point, LvcError>(LvcError::SerializationInvalid),
{
    if bytes.len() != 51 {
        proof {
            assert forall|c: G1Point|
                g1_ser(c).len() == 48 && bytes@ == #[trigger] commitment_bytes(c) implies false by {
                assert(commitment_bytes(c).len() == 51);
            }
        }
        return Err(LvcError::SerializationInvalid);
    }
    let hok = bytes[0] == 1 && bytes[1] == 99 && bytes[2] == 48;
    let s = seg(bytes, 3, 48);
    let o = g1_deserialize(s.as_slice());
    proof {
        assert forall|c: G1Point|
            g1_ser(c).len() == 48 && bytes@ == #[trigger] commitment_bytes(c) implies (hok && s@
            == g1_ser(c)) by {
            assert(commitment_bytes(c).subrange(3, 51) =~= g1_ser(c));
            assert(bytes@[0] == 1u8 && bytes@[1] == 99u8 && bytes@[2] == 48u8);
        }
    }
    if !hok {
        return Err(LvcError::SerializationInvalid);
    }
    match o {
        Some(c) => {
            let enc = g1_serialize(&c);
            if !bytes_eq(&enc, &s) {
                proof {
                    assert forall|q: G1Point|
                        g1_ser(q).len() == 48 && bytes@ == #[trigger] commitment_bytes(q)
                        implies false by {
                        assert(commitment_bytes(q).subrange(3, 51) =~= g1_ser(q));
                    }
                }
                return Err(LvcError::SerializationInvalid);
            }
            proof {
                assert(commitment_bytes(c).subrange(0, 3) =~= seq![1u8, 99u8, 48u8]);
                assert(commitment_bytes(c).subrange(3, 51) =~= g1_ser(c));
                assert forall|i: int| 0 <= i < 51 implies bytes@[i] == commitment_bytes(c)[i] by {
                    if i < 3 {
                        assert(commitment_bytes(c).subrange(0, 3)[i] == commitment_bytes(c)[i]);
                        assert(bytes@[0] == 1u8 && bytes@[1] == 99u8 && bytes@[2] == 48u8);
                    } else {
                        assert(bytes@.subrange(3, 51)[i - 3] == bytes@[i]);
                        assert(commitment_bytes(c).subrange(3, 51)[i - 3] == commitment_bytes(
                            c,
                        )[i]);
                    }
                }
                assert(bytes@ =~= commitment_bytes(c));
            }
            Ok(c)
        },
        None => Err(LvcError::SerializationInvalid),
    }
}

} // verus!
