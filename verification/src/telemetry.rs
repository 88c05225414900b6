//! Tolerant key/value telemetry decoding.
//!
//! One completed line is decoded as text, trimmed, appended to the raw
//! transcript, and split into comma-separated `Key value` segments.  The
//! four recognized keys update their fields; unknown keys, malformed
//! segments and invalid encodings are skipped without error — in the worst
//! case a line contributes nothing but its transcript entry.

use vstd::prelude::*;

use crate::text::{
    append_bytes, find_byte, find_byte_from, lemma_find_byte, seq_views, split_bytes, split_on,
    sub_vec, trim_bytes, trim_sp,
};

verus! {

/// The decoded telemetry record: the raw transcript plus the four decoded
/// fields, each a short text value kept as bytes.
#[derive(Debug)]
pub struct Data {
    /// Append-only transcript of every decoded line, newline-separated.
    pub raw: Vec<u8>,
    /// Latest `Acc` value.
    pub acc: Vec<u8>,
    /// Latest `EventAcc` value.
    pub event_acc: Vec<u8>,
    /// Latest `TotalAcc` value.
    pub total_acc: Vec<u8>,
    /// Latest `RInt` value.
    pub r_int: Vec<u8>,
}

/// The mathematical model of a telemetry record.
#[verifier::ext_equal]
pub struct DataView {
    /// Model of the raw transcript.
    pub raw: Seq<u8>,
    /// Model of the latest `Acc` value.
    pub acc: Seq<u8>,
    /// Model of the latest `EventAcc` value.
    pub event_acc: Seq<u8>,
    /// Model of the latest `TotalAcc` value.
    pub total_acc: Seq<u8>,
    /// Model of the latest `RInt` value.
    pub r_int: Seq<u8>,
}

impl View for Data {
    type V = DataView;

    open spec fn view(&self) -> DataView {
        DataView {
            raw: self.raw@,
            acc: self.acc@,
            event_acc: self.event_acc@,
            total_acc: self.total_acc@,
            r_int: self.r_int@,
        }
    }
}

/// The record at session start: empty transcript and a human-visible
/// placeholder in each field.
pub open spec fn init_data() -> DataView {
    DataView {
        raw: Seq::<u8>::empty(),
        acc: seq![97u8, 99u8, 99u8],  // acc
        event_acc: seq![101u8, 118u8, 101u8, 110u8, 116u8, 95u8, 97u8, 99u8, 99u8],  // event_acc
        total_acc: seq![116u8, 111u8, 116u8, 97u8, 108u8, 95u8, 97u8, 99u8, 99u8],  // total_acc
        r_int: seq![114u8, 95u8, 105u8, 110u8, 116u8],  // r_int
    }
}

/// The key naming the accumulation field.
pub open spec fn key_acc() -> Seq<u8> {
    seq![65u8, 99u8, 99u8]  // Acc
}

/// The key naming the event accumulation field.
pub open spec fn key_event_acc() -> Seq<u8> {
    seq![69u8, 118u8, 101u8, 110u8, 116u8, 65u8, 99u8, 99u8]  // EventAcc
}

/// The key naming the total accumulation field.
pub open spec fn key_total_acc() -> Seq<u8> {
    seq![84u8, 111u8, 116u8, 97u8, 108u8, 65u8, 99u8, 99u8]  // TotalAcc
}

/// The key naming the rain intensity field.
pub open spec fn key_r_int() -> Seq<u8> {
    seq![82u8, 73u8, 110u8, 116u8]  // RInt
}

/// The effect of one comma-separated segment: trim it, cut it at the first
/// space into key and value, and assign the value to the field the key
/// names.  A segment without a space, or with an unrecognized key, changes
/// nothing.
pub open spec fn segment_update(d: DataView, seg: Seq<u8>) -> DataView {
    let t = trim_sp(seg);
    let i = find_byte(t, 32);
    if i == -1 {
        d
    } else {
        let key = t.take(i);
        let value = t.skip(i + 1);
        if key == key_acc() {
            DataView { acc: value, ..d }
        } else if key == key_event_acc() {
            DataView { event_acc: value, ..d }
        } else if key == key_total_acc() {
            DataView { total_acc: value, ..d }
        } else if key == key_r_int() {
            DataView { r_int: value, ..d }
        } else {
            d
        }
    }
}

/// The effect of a line's segments, applied left to right, so a later
/// segment overwrites an earlier one for the same key.
pub open spec fn apply_segments(d: DataView, segs: Seq<Seq<u8>>) -> DataView
    decreases segs.len(),
{
    if segs.len() == 0 {
        d
    } else {
        apply_segments(segment_update(d, segs[0]), segs.drop_first())
    }
}

/// The effect of one completed line on the record.
///
/// A line that is not well-formed UTF-8 is discarded whole.  Otherwise the
/// trimmed line plus a newline is appended to the transcript
/// unconditionally, and its comma-separated segments are applied in order.
pub open spec fn apply_line(d: DataView, line: Seq<u8>) -> DataView {
    if !vstd::utf8::valid_utf8(line) {
        d
    } else {
        let t = trim_sp(line);
        let with_raw = DataView { raw: d.raw + t + seq![10u8], ..d };
        apply_segments(with_raw, split_on(t, 44))
    }
}

/// Relies on core::str::from_utf8: it accepts a byte sequence exactly when
/// the sequence is well-formed UTF-8, the encoding `vstd::utf8::valid_utf8`
/// describes.
#[verifier::external_body]
fn utf8_check(s: &[u8]) -> (r: bool)
    ensures
        r == vstd::utf8::valid_utf8(s@),
{
    core::str::from_utf8(s).is_ok()
}

impl Default for Data {
    /// The record at session start.
    fn default() -> (r: Self)
        ensures
            r@ == init_data(),
    {
        let r = Data {
            raw: Vec::new(),
            acc: vec![97u8, 99u8, 99u8],
            event_acc: vec![101u8, 118u8, 101u8, 110u8, 116u8, 95u8, 97u8, 99u8, 99u8],
            total_acc: vec![116u8, 111u8, 116u8, 97u8, 108u8, 95u8, 97u8, 99u8, 99u8],
            r_int: vec![114u8, 95u8, 105u8, 110u8, 116u8],
        };
        proof {
            assert(r@ =~= init_data());
        }
        r
    }
}

impl Data {
    /// A deep copy of the record, field by field.
    pub fn duplicate(&self) -> (r: Data)
        ensures
            r@ == self@,
    {
        let r = Data {
            raw: sub_vec(self.raw.as_slice(), 0, self.raw.len()),
            acc: sub_vec(self.acc.as_slice(), 0, self.acc.len()),
            event_acc: sub_vec(self.event_acc.as_slice(), 0, self.event_acc.len()),
            total_acc: sub_vec(self.total_acc.as_slice(), 0, self.total_acc.len()),
            r_int: sub_vec(self.r_int.as_slice(), 0, self.r_int.len()),
        };
        proof {
            assert(r.raw@ =~= self.raw@);
            assert(r.acc@ =~= self.acc@);
            assert(r.event_acc@ =~= self.event_acc@);
            assert(r.total_acc@ =~= self.total_acc@);
            assert(r.r_int@ =~= self.r_int@);
            assert(r@ =~= self@);
        }
        r
    }
}

/// Applies one segment to the record.
fn apply_segment(d: &mut Data, seg: &[u8])
    ensures
        final(d)@ == segment_update(old(d)@, seg@),
{
    let t = trim_bytes(seg);
    proof {
        lemma_find_byte(t@, 32);
    }
    let found = find_byte_from(t.as_slice(), 32, 0);
    match found {
        None => {
            proof {
                assert(find_byte(t@, 32) == -1);
                assert(d@ =~= segment_update(old(d)@, seg@));
            }
        },
        Some(i) => {
            proof {
                assert(find_byte(t@, 32) == i);
                assert(i < t@.len());
            }
            let ghost key = t@.take(i as int);
            proof {
                assert(forall|j: int| 0 <= j < key.len() ==> key[j] == t@[j]);
                assert(key.len() == i);
            }
            let n = t.len();
            let value = sub_vec(t.as_slice(), i + 1, n);
            proof {
                assert(value@ =~= t@.skip(i as int + 1));
            }
            if i == 3 && t[0] == 65 && t[1] == 99 && t[2] == 99 {
                d.acc = value;
                proof {
                    assert(key =~= key_acc());
                    assert(d@ =~= segment_update(old(d)@, seg@));
                }
            } else if i == 8 && t[0] == 69 && t[1] == 118 && t[2] == 101 && t[3] == 110 && t[4]
                == 116 && t[5] == 65 && t[6] == 99 && t[7] == 99 {
                d.event_acc = value;
                proof {
                    assert(key =~= key_event_acc());
                    assert(key != key_acc());
                    assert(d@ =~= segment_update(old(d)@, seg@));
                }
            } else if i == 8 && t[0] == 84 && t[1] == 111 && t[2] == 116 && t[3] == 97 && t[4]
                == 108 && t[5] == 65 && t[6] == 99 && t[7] == 99 {
                d.total_acc = value;
                proof {
                    assert(key =~= key_total_acc());
                    assert(key != key_acc());
                    assert(key != key_event_acc());
                    assert(d@ =~= segment_update(old(d)@, seg@));
                }
            } else if i == 4 && t[0] == 82 && t[1] == 73 && t[2] == 110 && t[3] == 116 {
                d.r_int = value;
                proof {
                    assert(key =~= key_r_int());
                    assert(key != key_acc());
                    assert(key != key_event_acc());
                    assert(key != key_total_acc());
                    assert(d@ =~= segment_update(old(d)@, seg@));
                }
            } else {
                proof {
                    assert(key != key_acc());
                    assert(key != key_event_acc());
                    assert(key != key_total_acc());
                    assert(key != key_r_int());
                    assert(d@ =~= segment_update(old(d)@, seg@));
                }
            }
        },
    }
}

/// Decodes one completed line into the record.
///
/// The record afterwards is exactly [`apply_line`] of the record before:
/// an invalid encoding discards the line, and otherwise the transcript
/// grows by the trimmed line plus a newline while the recognized segments
/// update their fields left to right.
pub fn decode_line(d: &mut Data, line: &[u8])
    ensures
        final(d)@ == apply_line(old(d)@, line@),
{
    if !utf8_check(line) {
        return ;
    }
    let t = trim_bytes(line);
    append_bytes(&mut d.raw, t.as_slice());
    d.raw.push(10);
    let ghost target = apply_line(old(d)@, line@);
    proof {
        assert(d.raw@ =~= old(d)@.raw + trim_sp(line@) + seq![10u8]);
        assert(d@ =~= DataView { raw: old(d)@.raw + trim_sp(line@) + seq![10u8], ..old(d)@ });
        assert(target == apply_segments(d@, split_on(trim_sp(line@), 44)));
    }
    let segs = split_bytes(t.as_slice(), 44);
    proof {
        assert(seq_views(segs@).skip(0) =~~= split_on(trim_sp(line@), 44));
    }
    let mut k: usize = 0;
    while k < segs.len()
        invariant
            k <= segs@.len(),
            apply_segments(d@, seq_views(segs@).skip(k as int)) == target,
        decreases segs@.len() - k,
    {
        proof {
            let vs = seq_views(segs@);
            assert(vs.skip(k as int)[0] == vs[k as int]);
            assert(vs[k as int] == segs@[k as int]@);
            assert(vs.skip(k as int).drop_first() =~~= vs.skip(k as int + 1));
        }
        apply_segment(d, segs[k].as_slice());
        k = k + 1;
    }
    proof {
        assert(seq_views(segs@).skip(segs@.len() as int) =~~= Seq::<Seq<u8>>::empty());
    }
}

} // verus!
