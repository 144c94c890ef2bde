//! The record codec: the three record kinds (review, comment counter,
//! comment) and their fixed-layout byte cells. Each record starts with a
//! length-prefixed discriminator string and an initialized flag; strings are
//! length-prefixed byte fields and integers are little-endian. An all-zero
//! (freshly allocated) cell decodes as an uninitialized record, never as an
//! error: the initialized flag, not decode success, says whether valid data
//! exists in a cell.

use vstd::prelude::*;

use crate::bytes::{
    append_bytes, copy_range, lemma_u32_le_round_trip, lemma_u64_le_round_trip, push_u32_le,
    push_u64_le, read_u32_le, read_u64_le, u32_from_le, u32_le_bytes, u64_from_le, u64_le_bytes,
};

verus! {

/// Flat byte budget of a review cell; contents of any size up to this are
/// stored in a cell of exactly this size.
pub const MAX_RECORD_BYTES: usize = 1000;

/// Serialized size of a comment counter record.
pub const COUNTER_RECORD_BYTES: usize = 4 + 7 + 1 + 8;

/// The discriminator of a review record (the bytes of `"intro"`).
pub open spec fn intro_discriminator() -> Seq<u8> {
    seq![0x69u8, 0x6eu8, 0x74u8, 0x72u8, 0x6fu8]
}

/// The discriminator of a comment counter record (the bytes of `"counter"`).
pub open spec fn counter_discriminator() -> Seq<u8> {
    seq![0x63u8, 0x6fu8, 0x75u8, 0x6eu8, 0x74u8, 0x65u8, 0x72u8]
}

/// The discriminator of a comment record (the bytes of `"comment"`).
pub open spec fn comment_discriminator() -> Seq<u8> {
    seq![0x63u8, 0x6fu8, 0x6du8, 0x6du8, 0x65u8, 0x6eu8, 0x74u8]
}

/// The bytes of `"intro"` as a fresh vector.
pub fn intro_discriminator_bytes() -> (r: Vec<u8>)
    ensures
        r@ == intro_discriminator(),
{
    let mut v: Vec<u8> = Vec::new();
    v.push(0x69);
    v.push(0x6e);
    v.push(0x74);
    v.push(0x72);
    v.push(0x6f);
    proof {
        assert(v@ =~= intro_discriminator());
    }
    v
}

/// The bytes of `"counter"` as a fresh vector.
pub fn counter_discriminator_bytes() -> (r: Vec<u8>)
    ensures
        r@ == counter_discriminator(),
{
    let mut v: Vec<u8> = Vec::new();
    v.push(0x63);
    v.push(0x6f);
    v.push(0x75);
    v.push(0x6e);
    v.push(0x74);
    v.push(0x65);
    v.push(0x72);
    proof {
        assert(v@ =~= counter_discriminator());
    }
    v
}

/// The bytes of `"comment"` as a fresh vector.
pub fn comment_discriminator_bytes() -> (r: Vec<u8>)
    ensures
        r@ == comment_discriminator(),
{
    let mut v: Vec<u8> = Vec::new();
    v.push(0x63);
    v.push(0x6f);
    v.push(0x6d);
    v.push(0x6d);
    v.push(0x65);
    v.push(0x6e);
    v.push(0x74);
    proof {
        assert(v@ =~= comment_discriminator());
    }
    v
}

pub open spec fn bool_byte(b: bool) -> u8 {
    if b {
        1
    } else {
        0
    }
}

/// Mathematical image of a review record.
#[verifier::ext_equal]
pub struct ReviewView {
    pub discriminator: Seq<u8>,
    pub is_initialized: bool,
    pub reviewer: Seq<u8>,
    pub name: Seq<u8>,
    pub message: Seq<u8>,
}

/// A review record: author identity plus a name and a message.
#[derive(Clone, Debug)]
pub struct StudentIntroState {
    pub discriminator: Vec<u8>,
    pub is_initialized: bool,
    pub reviewer: Vec<u8>,
    pub name: Vec<u8>,
    pub message: Vec<u8>,
}

impl View for StudentIntroState {
    type V = ReviewView;

    open spec fn view(&self) -> ReviewView {
        ReviewView {
            discriminator: self.discriminator@,
            is_initialized: self.is_initialized,
            reviewer: self.reviewer@,
            name: self.name@,
            message: self.message@,
        }
    }
}

/// Mathematical image of a comment counter record.
#[verifier::ext_equal]
pub struct CounterView {
    pub discriminator: Seq<u8>,
    pub is_initialized: bool,
    pub counter: u64,
}

/// The per-review monotonic comment counter.
#[derive(Clone, Debug)]
pub struct StudentIntroCommentCounter {
    pub discriminator: Vec<u8>,
    pub is_initialized: bool,
    pub counter: u64,
}

impl View for StudentIntroCommentCounter {
    type V = CounterView;

    open spec fn view(&self) -> CounterView {
        CounterView {
            discriminator: self.discriminator@,
            is_initialized: self.is_initialized,
            counter: self.counter,
        }
    }
}

/// Mathematical image of a comment record.
#[verifier::ext_equal]
pub struct CommentView {
    pub discriminator: Seq<u8>,
    pub is_initialized: bool,
    pub review: Seq<u8>,
    pub commenter: Seq<u8>,
    pub comment: Seq<u8>,
}

/// A comment record: immutable once written.
#[derive(Clone, Debug)]
pub struct StudentIntroComment {
    pub discriminator: Vec<u8>,
    pub is_initialized: bool,
    pub review: Vec<u8>,
    pub commenter: Vec<u8>,
    pub comment: Vec<u8>,
}

impl View for StudentIntroComment {
    type V = CommentView;

    open spec fn view(&self) -> CommentView {
        CommentView {
            discriminator: self.discriminator@,
            is_initialized: self.is_initialized,
            review: self.review@,
            commenter: self.commenter@,
            comment: self.comment@,
        }
    }
}

/// Field lengths a review record must respect so that every length fits its
/// 32-bit prefix and the identity is a full address.
pub open spec fn review_wf(r: ReviewView) -> bool {
    &&& r.discriminator.len() < 0x1_0000_0000
    &&& r.reviewer.len() == 32
    &&& r.name.len() < 0x1_0000_0000
    &&& r.message.len() < 0x1_0000_0000
}

pub open spec fn counter_wf(r: CounterView) -> bool {
    r.discriminator.len() < 0x1_0000_0000
}

pub open spec fn comment_wf(r: CommentView) -> bool {
    &&& r.discriminator.len() < 0x1_0000_0000
    &&& r.review.len() == 32
    &&& r.commenter.len() == 32
    &&& r.comment.len() < 0x1_0000_0000
}

/// Serialized size of a review record with the standard discriminator.
pub open spec fn review_record_size(name_len: int, message_len: int) -> int {
    50 + name_len + message_len
}

/// Serialized size of a comment record with the standard discriminator.
pub open spec fn comment_record_size(comment_len: int) -> int {
    80 + comment_len
}

pub open spec fn spec_encode_review(r: ReviewView) -> Seq<u8> {
    u32_le_bytes(r.discriminator.len() as u32) + r.discriminator + seq![
        bool_byte(r.is_initialized),
    ] + r.reviewer + u32_le_bytes(r.name.len() as u32) + r.name + u32_le_bytes(
        r.message.len() as u32,
    ) + r.message
}

pub open spec fn spec_encode_counter(r: CounterView) -> Seq<u8> {
    u32_le_bytes(r.discriminator.len() as u32) + r.discriminator + seq![
        bool_byte(r.is_initialized),
    ] + u64_le_bytes(r.counter)
}

pub open spec fn spec_encode_comment(r: CommentView) -> Seq<u8> {
    u32_le_bytes(r.discriminator.len() as u32) + r.discriminator + seq![
        bool_byte(r.is_initialized),
    ] + r.review + r.commenter + u32_le_bytes(r.comment.len() as u32) + r.comment
}

pub open spec fn spec_read_u32(d: Seq<u8>, p: int) -> u32 {
    u32_from_le(d[p], d[p + 1], d[p + 2], d[p + 3])
}

/// Parses a review record from the front of a cell; trailing bytes are not
/// interpreted as data.
#[verifier::opaque]
pub open spec fn spec_decode_review(d: Seq<u8>) -> Option<ReviewView> {
    if d.len() < 4 {
        None
    } else {
        let dl = spec_read_u32(d, 0) as int;
        if d.len() < 41 + dl {
            None
        } else {
            let flag = d[4 + dl];
            if flag != 0 && flag != 1 {
                None
            } else {
                let nl = spec_read_u32(d, 37 + dl) as int;
                if d.len() < 45 + dl + nl {
                    None
                } else {
                    let ml = spec_read_u32(d, 41 + dl + nl) as int;
                    if d.len() < 45 + dl + nl + ml {
                        None
                    } else {
                        Some(
                            ReviewView {
                                discriminator: d.subrange(4, 4 + dl),
                                is_initialized: flag == 1,
                                reviewer: d.subrange(5 + dl, 37 + dl),
                                name: d.subrange(41 + dl, 41 + dl + nl),
                                message: d.subrange(45 + dl + nl, 45 + dl + nl + ml),
                            },
                        )
                    }
                }
            }
        }
    }
}

/// Parses a comment counter record from the front of a cell.
#[verifier::opaque]
pub open spec fn spec_decode_counter(d: Seq<u8>) -> Option<CounterView> {
    if d.len() < 4 {
        None
    } else {
        let dl = spec_read_u32(d, 0) as int;
        if d.len() < 13 + dl {
            None
        } else {
            let flag = d[4 + dl];
            if flag != 0 && flag != 1 {
                None
            } else {
                Some(
                    CounterView {
                        discriminator: d.subrange(4, 4 + dl),
                        is_initialized: flag == 1,
                        counter: u64_from_le(d.subrange(5 + dl, 13 + dl)),
                    },
                )
            }
        }
    }
}

/// Parses a comment record from the front of a cell.
#[verifier::opaque]
pub open spec fn spec_decode_comment(d: Seq<u8>) -> Option<CommentView> {
    if d.len() < 4 {
        None
    } else {
        let dl = spec_read_u32(d, 0) as int;
        if d.len() < 73 + dl {
            None
        } else {
            let flag = d[4 + dl];
            if flag != 0 && flag != 1 {
                None
            } else {
                let tl = spec_read_u32(d, 69 + dl) as int;
                if d.len() < 73 + dl + tl {
                    None
                } else {
                    Some(
                        CommentView {
                            discriminator: d.subrange(4, 4 + dl),
                            is_initialized: flag == 1,
                            review: d.subrange(5 + dl, 37 + dl),
                            commenter: d.subrange(37 + dl, 69 + dl),
                            comment: d.subrange(73 + dl, 73 + dl + tl),
                        },
                    )
                }
            }
        }
    }
}

pub fn encode_review(rec: &StudentIntroState) -> (r: Vec<u8>)
    requires
        review_wf(rec@),
    ensures
        r@ == spec_encode_review(rec@),
{
    let mut out: Vec<u8> = Vec::new();
    push_u32_le(&mut out, rec.discriminator.len() as u32);
    append_bytes(&mut out, &rec.discriminator);
    out.push(if rec.is_initialized { 1 } else { 0 });
    append_bytes(&mut out, &rec.reviewer);
    push_u32_le(&mut out, rec.name.len() as u32);
    append_bytes(&mut out, &rec.name);
    push_u32_le(&mut out, rec.message.len() as u32);
    append_bytes(&mut out, &rec.message);
    proof {
        assert(out@ =~= spec_encode_review(rec@));
    }
    out
}

pub fn encode_counter(rec: &StudentIntroCommentCounter) -> (r: Vec<u8>)
    requires
        counter_wf(rec@),
    ensures
        r@ == spec_encode_counter(rec@),
{
    let mut out: Vec<u8> = Vec::new();
    push_u32_le(&mut out, rec.discriminator.len() as u32);
    append_bytes(&mut out, &rec.discriminator);
    out.push(if rec.is_initialized { 1 } else { 0 });
    push_u64_le(&mut out, rec.counter);
    proof {
        assert(out@ =~= spec_encode_counter(rec@));
    }
    out
}

pub fn encode_comment(rec: &StudentIntroComment) -> (r: Vec<u8>)
    requires
        comment_wf(rec@),
    ensures
        r@ == spec_encode_comment(rec@),
{
    let mut out: Vec<u8> = Vec::new();
    push_u32_le(&mut out, rec.discriminator.len() as u32);
    append_bytes(&mut out, &rec.discriminator);
    out.push(if rec.is_initialized { 1 } else { 0 });
    append_bytes(&mut out, &rec.review);
    append_bytes(&mut out, &rec.commenter);
    push_u32_le(&mut out, rec.comment.len() as u32);
    append_bytes(&mut out, &rec.comment);
    proof {
        assert(out@ =~= spec_encode_comment(rec@));
    }
    out
}

pub fn decode_review(d: &Vec<u8>) -> (r: Option<StudentIntroState>)
    ensures
        match r {
            Some(rec) => spec_decode_review(d@) == Some(rec@) && review_wf(rec@),
            None => spec_decode_review(d@) is None,
        },
{
    proof {
        reveal(spec_decode_review);
    }
    let len = d.len();
    if len < 4 {
        return None;
    }
    let dl32 = read_u32_le(d, 0);
    if (dl32 as u64) + 41 > (len as u64) {
        return None;
    }
    let dl = dl32 as usize;
    let flag = d[4 + dl];
    if flag > 1 {
        return None;
    }
    let nl32 = read_u32_le(d, 37 + dl);
    if (dl as u64) + (nl32 as u64) + 45 > (len as u64) {
        return None;
    }
    let nl = nl32 as usize;
    let ml32 = read_u32_le(d, 41 + dl + nl);
    if (dl as u64) + (nl as u64) + (ml32 as u64) + 45 > (len as u64) {
        return None;
    }
    let ml = ml32 as usize;
    let rec = StudentIntroState {
        discriminator: copy_range(d, 4, 4 + dl),
        is_initialized: flag == 1,
        reviewer: copy_range(d, 5 + dl, 37 + dl),
        name: copy_range(d, 41 + dl, 41 + dl + nl),
        message: copy_range(d, 45 + dl + nl, 45 + dl + nl + ml),
    };
    proof {
        assert(spec_decode_review(d@) == Some(rec@));
    }
    Some(rec)
}

pub fn decode_counter(d: &Vec<u8>) -> (r: Option<StudentIntroCommentCounter>)
    ensures
        match r {
            Some(rec) => spec_decode_counter(d@) == Some(rec@) && counter_wf(rec@),
            None => spec_decode_counter(d@) is None,
        },
{
    proof {
        reveal(spec_decode_counter);
    }
    let len = d.len();
    if len < 4 {
        return None;
    }
    let dl32 = read_u32_le(d, 0);
    if (dl32 as u64) + 13 > (len as u64) {
        return None;
    }
    let dl = dl32 as usize;
    let flag = d[4 + dl];
    if flag > 1 {
        return None;
    }
    let counter = read_u64_le(d, 5 + dl);
    let rec = StudentIntroCommentCounter {
        discriminator: copy_range(d, 4, 4 + dl),
        is_initialized: flag == 1,
        counter,
    };
    proof {
        assert(spec_decode_counter(d@) == Some(rec@));
    }
    Some(rec)
}

pub fn decode_comment(d: &Vec<u8>) -> (r: Option<StudentIntroComment>)
    ensures
        match r {
            Some(rec) => spec_decode_comment(d@) == Some(rec@) && comment_wf(rec@),
            None => spec_decode_comment(d@) is None,
        },
{
    proof {
        reveal(spec_decode_comment);
    }
    let len = d.len();
    if len < 4 {
        return None;
    }
    let dl32 = read_u32_le(d, 0);
    if (dl32 as u64) + 73 > (len as u64) {
        return None;
    }
    let dl = dl32 as usize;
    let flag = d[4 + dl];
    if flag > 1 {
        return None;
    }
    let tl32 = read_u32_le(d, 69 + dl);
    if (dl as u64) + (tl32 as u64) + 73 > (len as u64) {
        return None;
    }
    let tl = tl32 as usize;
    let rec = StudentIntroComment {
        discriminator: copy_range(d, 4, 4 + dl),
        is_initialized: flag == 1,
        review: copy_range(d, 5 + dl, 37 + dl),
        commenter: copy_range(d, 37 + dl, 69 + dl),
        comment: copy_range(d, 73 + dl, 73 + dl + tl),
    };
    proof {
        assert(spec_decode_comment(d@) == Some(rec@));
    }
    Some(rec)
}

proof fn lemma_u32_at(d: Seq<u8>, p: int, n: u32)
    requires
        0 <= p,
        p + 4 <= d.len(),
        d[p] == u32_le_bytes(n)[0],
        d[p + 1] == u32_le_bytes(n)[1],
        d[p + 2] == u32_le_bytes(n)[2],
        d[p + 3] == u32_le_bytes(n)[3],
    ensures
        spec_read_u32(d, p) == n,
{
    lemma_u32_le_round_trip(n);
}

/// Decoding inverts encoding for any well-formed review record, whatever
/// uninterpreted bytes trail it in the cell.
pub proof fn lemma_review_round_trip(r: ReviewView, rest: Seq<u8>)
    requires
        review_wf(r),
    ensures
        spec_decode_review(spec_encode_review(r) + rest) == Some(r),
{
    reveal(spec_decode_review);
    let e = spec_encode_review(r);
    let d = e + rest;
    let dl = r.discriminator.len() as int;
    let nl = r.name.len() as int;
    let ml = r.message.len() as int;
    assert(e.len() == 45 + dl + nl + ml);
    assert(forall|i: int| 0 <= i < e.len() ==> d[i] == e[i]);
    lemma_u32_at(d, 0, dl as u32);
    assert(spec_read_u32(d, 0) as int == dl);
    assert(d[4 + dl] == bool_byte(r.is_initialized));
    assert(bool_byte(r.is_initialized) == 0 || bool_byte(r.is_initialized) == 1);
    lemma_u32_at(d, 37 + dl, nl as u32);
    lemma_u32_at(d, 41 + dl + nl, ml as u32);
    let dec = spec_decode_review(d);
    assert(d.subrange(4, 4 + dl) =~= r.discriminator);
    assert(d.subrange(5 + dl, 37 + dl) =~= r.reviewer);
    assert(d.subrange(41 + dl, 41 + dl + nl) =~= r.name);
    assert(d.subrange(45 + dl + nl, 45 + dl + nl + ml) =~= r.message);
    assert(dec == Some(r));
}

/// Decoding inverts encoding for any well-formed counter record.
pub proof fn lemma_counter_round_trip(r: CounterView, rest: Seq<u8>)
    requires
        counter_wf(r),
    ensures
        spec_decode_counter(spec_encode_counter(r) + rest) == Some(r),
{
    reveal(spec_decode_counter);
    let e = spec_encode_counter(r);
    let d = e + rest;
    let dl = r.discriminator.len() as int;
    assert(e.len() == 13 + dl);
    assert(forall|i: int| 0 <= i < e.len() ==> d[i] == e[i]);
    lemma_u32_at(d, 0, dl as u32);
    assert(d[4 + dl] == bool_byte(r.is_initialized));
    lemma_u64_le_round_trip(r.counter);
    assert(d.subrange(4, 4 + dl) =~= r.discriminator);
    assert(d.subrange(5 + dl, 13 + dl) =~= u64_le_bytes(r.counter));
    assert(spec_decode_counter(d) == Some(r));
}

/// Decoding inverts encoding for any well-formed comment record.
pub proof fn lemma_comment_round_trip(r: CommentView, rest: Seq<u8>)
    requires
        comment_wf(r),
    ensures
        spec_decode_comment(spec_encode_comment(r) + rest) == Some(r),
{
    reveal(spec_decode_comment);
    let e = spec_encode_comment(r);
    let d = e + rest;
    let dl = r.discriminator.len() as int;
    let tl = r.comment.len() as int;
    assert(e.len() == 73 + dl + tl);
    assert(forall|i: int| 0 <= i < e.len() ==> d[i] == e[i]);
    lemma_u32_at(d, 0, dl as u32);
    assert(d[4 + dl] == bool_byte(r.is_initialized));
    lemma_u32_at(d, 69 + dl, tl as u32);
    assert(d.subrange(4, 4 + dl) =~= r.discriminator);
    assert(d.subrange(5 + dl, 37 + dl) =~= r.review);
    assert(d.subrange(37 + dl, 69 + dl) =~= r.commenter);
    assert(d.subrange(73 + dl, 73 + dl + tl) =~= r.comment);
    assert(spec_decode_comment(d) == Some(r));
}

} // verus!
