use vstd::prelude::*;

verus! {

// Decoding of the CTAP2 CBOR subset: definite-length unsigned and negative
// integers, byte strings, text strings (their payload must be valid UTF-8),
// arrays, maps, booleans and null. Indefinite lengths, tags, text items
// with invalid UTF-8, and floating-point items are outside the CTAP2
// canonical form and are rejected as malformed.

/// The mathematical shape of a decoded CBOR item.
pub enum CborData {
    UInt(u64),
    /// The negative integer -1 - n.
    NInt(u64),
    Bytes(Seq<u8>),
    /// A text string as its UTF-8 bytes.
    Text(Seq<u8>),
    Bool(bool),
    Null,
    Array(Seq<CborData>),
    Dict(Seq<(CborData, CborData)>),
}

/// A decoded CBOR item as the decoder hands it out.
#[derive(Debug)]
pub enum CborValue {
    UInt(u64),
    /// The negative integer -1 - n.
    NInt(u64),
    Bytes(Vec<u8>),
    /// A text string as its UTF-8 bytes.
    Text(Vec<u8>),
    Bool(bool),
    Null,
    Array(Vec<CborValue>),
    Dict(Vec<(CborValue, CborValue)>),
}

pub open spec fn cbor_view(v: &CborValue) -> CborData
    decreases v,
{
    match v {
        CborValue::UInt(n) => CborData::UInt(*n),
        CborValue::NInt(n) => CborData::NInt(*n),
        CborValue::Bytes(b) => CborData::Bytes(b@),
        CborValue::Text(t) => CborData::Text(t@),
        CborValue::Bool(b) => CborData::Bool(*b),
        CborValue::Null => CborData::Null,
        CborValue::Array(items) => CborData::Array(cbor_view_seq(items@)),
        CborValue::Dict(entries) => CborData::Dict(cbor_view_pairs(entries@)),
    }
}

pub open spec fn cbor_view_seq(items: Seq<CborValue>) -> Seq<CborData>
    decreases items,
{
    if items.len() == 0 {
        Seq::empty()
    } else {
        cbor_view_seq(items.drop_last()).push(cbor_view(&items.last()))
    }
}

pub open spec fn cbor_view_pairs(entries: Seq<(CborValue, CborValue)>) -> Seq<(CborData, CborData)>
    decreases entries,
{
    if entries.len() == 0 {
        Seq::empty()
    } else {
        cbor_view_pairs(entries.drop_last()).push(
            (cbor_view(&entries.last().0), cbor_view(&entries.last().1)),
        )
    }
}

pub proof fn lemma_cbor_view_seq_push(items: Seq<CborValue>, v: CborValue)
    ensures
        cbor_view_seq(items.push(v)) == cbor_view_seq(items).push(cbor_view(&v)),
{
    assert(items.push(v).drop_last() =~= items);
    assert(items.push(v).last() == v);
}

pub proof fn lemma_cbor_view_pairs_push(
    entries: Seq<(CborValue, CborValue)>,
    k: CborValue,
    v: CborValue,
)
    ensures
        cbor_view_pairs(entries.push((k, v))) == cbor_view_pairs(entries).push(
            (cbor_view(&k), cbor_view(&v)),
        ),
{
    assert(entries.push((k, v)).drop_last() =~= entries);
    assert(entries.push((k, v)).last() == (k, v));
}

pub proof fn lemma_cbor_view_seq_len(items: Seq<CborValue>)
    ensures
        cbor_view_seq(items).len() == items.len(),
    decreases items,
{
    if items.len() > 0 {
        lemma_cbor_view_seq_len(items.drop_last());
    }
}

pub proof fn lemma_cbor_view_pairs_len(entries: Seq<(CborValue, CborValue)>)
    ensures
        cbor_view_pairs(entries).len() == entries.len(),
    decreases entries,
{
    if entries.len() > 0 {
        lemma_cbor_view_pairs_len(entries.drop_last());
    }
}

/// The argument of a CBOR head at `pos`: the value carried in the low five
/// bits, or in the 1, 2, 4 or 8 big-endian bytes that follow. Returns the
/// argument and the head's total length; None when the head is truncated
/// or uses an additional-information value outside the definite-length
/// forms.
pub open spec fn spec_head_arg(bytes: Seq<u8>, pos: int) -> Option<(u64, int)>
    recommends
        0 <= pos < bytes.len(),
{
    let ai = bytes[pos] % 32;
    if ai < 24 {
        Some((ai as u64, 1))
    } else if ai == 24 {
        if bytes.len() - pos >= 2 {
            Some((bytes[pos + 1] as u64, 2))
        } else {
            None
        }
    } else if ai == 25 {
        if bytes.len() - pos >= 3 {
            Some((((bytes[pos + 1] * 0x100 + bytes[pos + 2]) as int) as u64, 3))
        } else {
            None
        }
    } else if ai == 26 {
        if bytes.len() - pos >= 5 {
            Some(
                (((bytes[pos + 1] * 0x1000000 + bytes[pos + 2] * 0x10000 + bytes[pos + 3] * 0x100
                    + bytes[pos + 4]) as int) as u64, 5),
            )
        } else {
            None
        }
    } else if ai == 27 {
        if bytes.len() - pos >= 9 {
            Some(
                (((bytes[pos + 1] * 0x100000000000000 + bytes[pos + 2] * 0x1000000000000 + bytes[pos + 3] * 0x10000000000 + bytes[pos + 4] * 0x100000000 + bytes[pos + 5] * 0x1000000
                    + bytes[pos + 6] * 0x10000 + bytes[pos + 7] * 0x100 + bytes[pos + 8]) as int)
                    as u64, 9),
            )
        } else {
            None
        }
    } else {
        None
    }
}

/// Parses one CBOR item at `pos`. Returns the item and the position just
/// past it; None when the input is not well-formed CTAP2 CBOR at `pos`.
pub open spec fn spec_parse(bytes: Seq<u8>, pos: int) -> Option<(CborData, int)>
    decreases bytes.len() - pos, 0int, 0int,
{
    if pos < 0 || pos >= bytes.len() {
        None
    } else {
        let major = bytes[pos] / 32;
        match spec_head_arg(bytes, pos) {
            None => None,
            Some((arg, hl)) => {
                if major == 0 {
                    Some((CborData::UInt(arg), pos + hl))
                } else if major == 1 {
                    Some((CborData::NInt(arg), pos + hl))
                } else if major == 2 {
                    if pos + hl + arg <= bytes.len() {
                        Some(
                            (CborData::Bytes(bytes.subrange(pos + hl, pos + hl + arg)), pos + hl
                                + arg),
                        )
                    } else {
                        None
                    }
                } else if major == 3 {
                    if pos + hl + arg <= bytes.len() && vstd::utf8::valid_utf8(
                        bytes.subrange(pos + hl, pos + hl + arg),
                    ) {
                        Some(
                            (CborData::Text(bytes.subrange(pos + hl, pos + hl + arg)), pos + hl
                                + arg),
                        )
                    } else {
                        None
                    }
                } else if major == 4 {
                    match spec_parse_items(bytes, pos + hl, arg as int) {
                        Some((items, end)) => Some((CborData::Array(items), end)),
                        None => None,
                    }
                } else if major == 5 {
                    match spec_parse_pairs(bytes, pos + hl, arg as int) {
                        Some((entries, end)) => Some((CborData::Dict(entries), end)),
                        None => None,
                    }
                } else if major == 7 {
                    let ai = bytes[pos] % 32;
                    if ai == 20 {
                        Some((CborData::Bool(false), pos + 1))
                    } else if ai == 21 {
                        Some((CborData::Bool(true), pos + 1))
                    } else if ai == 22 {
                        Some((CborData::Null, pos + 1))
                    } else {
                        None
                    }
                } else {
                    // major 6: tags are outside the CTAP2 canonical form
                    None
                }
            },
        }
    }
}

/// Parses exactly `count` consecutive CBOR items starting at `pos`.
pub open spec fn spec_parse_items(bytes: Seq<u8>, pos: int, count: int) -> Option<
    (Seq<CborData>, int),
>
    decreases bytes.len() - pos, count, 1int,
{
    if pos < 0 || pos > bytes.len() || count < 0 {
        None
    } else if count == 0 {
        Some((Seq::empty(), pos))
    } else {
        match spec_parse(bytes, pos) {
            Some((d, end)) => {
                if pos < end <= bytes.len() {
                    match spec_parse_items(bytes, end, count - 1) {
                        Some((rest, e2)) => Some((seq![d] + rest, e2)),
                        None => None,
                    }
                } else {
                    None
                }
            },
            None => None,
        }
    }
}

/// Parses exactly `count` consecutive key/value pairs starting at `pos`.
pub open spec fn spec_parse_pairs(bytes: Seq<u8>, pos: int, count: int) -> Option<
    (Seq<(CborData, CborData)>, int),
>
    decreases bytes.len() - pos, count, 1int,
{
    if pos < 0 || pos > bytes.len() || count < 0 {
        None
    } else if count == 0 {
        Some((Seq::empty(), pos))
    } else {
        match spec_parse(bytes, pos) {
            Some((k, kend)) => {
                if pos < kend <= bytes.len() {
                    match spec_parse(bytes, kend) {
                        Some((v, vend)) => {
                            if kend < vend <= bytes.len() {
                                match spec_parse_pairs(bytes, vend, count - 1) {
                                    Some((rest, e2)) => Some((seq![(k, v)] + rest, e2)),
                                    None => None,
                                }
                            } else {
                                None
                            }
                        },
                        None => None,
                    }
                } else {
                    None
                }
            },
            None => None,
        }
    }
}

/// Reads the head argument at `pos`, mirroring `spec_head_arg`.
fn parse_head_arg(bytes: &[u8], pos: usize) -> (r: Option<(u64, usize)>)
    requires
        pos < bytes@.len(),
    ensures
        match r {
            Some((arg, hl)) => {
                &&& spec_head_arg(bytes@, pos as int) == Some((arg, hl as int))
                &&& 1 <= hl
                &&& pos + hl <= bytes@.len()
            },
            None => spec_head_arg(bytes@, pos as int) is None,
        },
{
    let ai = bytes[pos] % 32;
    if ai < 24 {
        Some((ai as u64, 1))
    } else if ai == 24 {
        if bytes.len() - pos >= 2 {
            Some((bytes[pos + 1] as u64, 2))
        } else {
            None
        }
    } else if ai == 25 {
        if bytes.len() - pos >= 3 {
            Some(((bytes[pos + 1] as u64) * 0x100 + (bytes[pos + 2] as u64), 3))
        } else {
            None
        }
    } else if ai == 26 {
        if bytes.len() - pos >= 5 {
            Some(
                ((bytes[pos + 1] as u64) * 0x1000000 + (bytes[pos + 2] as u64) * 0x10000 + (bytes[pos + 3] as u64) * 0x100 + (bytes[pos + 4] as u64), 5),
            )
        } else {
            None
        }
    } else if ai == 27 {
        if bytes.len() - pos >= 9 {
            Some(
                ((bytes[pos + 1] as u64) * 0x100000000000000 + (bytes[pos + 2] as u64)
                    * 0x1000000000000 + (bytes[pos + 3] as u64) * 0x10000000000 + (bytes[pos
                    + 4] as u64) * 0x100000000 + (bytes[pos + 5] as u64) * 0x1000000 + (bytes[pos
                    + 6] as u64) * 0x10000 + (bytes[pos + 7] as u64) * 0x100 + (bytes[pos
                    + 8] as u64), 9),
            )
        } else {
            None
        }
    } else {
        None
    }
}

/// Decodes one CBOR item at `pos`, mirroring `spec_parse` exactly: the
/// result is Some exactly when the bytes at `pos` are a well-formed item of
/// the CTAP2 subset, and then carries the decoded item and the position
/// just past it.
#[verifier::loop_isolation(false)]
pub fn parse_value(bytes: &[u8], pos: usize) -> (r: Option<(CborValue, usize)>)
    ensures
        match r {
            Some((v, end)) => {
                &&& spec_parse(bytes@, pos as int) == Some((cbor_view(&v), end as int))
                &&& pos < end <= bytes@.len()
            },
            None => spec_parse(bytes@, pos as int) is None,
        },
    decreases bytes@.len() - pos,
{
    if pos >= bytes.len() {
        return None;
    }
    let major = bytes[pos] / 32;
    let (arg, hl) = match parse_head_arg(bytes, pos) {
        Some(p) => p,
        None => {
            return None;
        },
    };
    if major == 0 {
        Some((CborValue::UInt(arg), pos + hl))
    } else if major == 1 {
        Some((CborValue::NInt(arg), pos + hl))
    } else if major == 2 || major == 3 {
        if arg <= (bytes.len() - (pos + hl)) as u64 {
            let start = pos + hl;
            let end = pos + hl + (arg as usize);
            let content = vstd::slice::slice_to_vec(
                vstd::slice::slice_subrange(bytes, start, end),
            );
            if major == 2 {
                Some((CborValue::Bytes(content), end))
            } else if crate::util::is_valid_utf8(content.as_slice()) {
                Some((CborValue::Text(content), end))
            } else {
                // A text item whose payload is not UTF-8 is malformed.
                None
            }
        } else {
            None
        }
    } else if major == 4 {
        let count = arg;
        let mut items: Vec<CborValue> = Vec::new();
        let mut cur: usize = pos + hl;
        let mut i: u64 = 0;
        proof {
            assert forall|rest: Seq<CborData>, e2: int|
                spec_parse_items(bytes@, cur as int, (count - i) as int) == Some((rest, e2))
                implies spec_parse_items(bytes@, (pos + hl) as int, count as int) == Some(
                (cbor_view_seq(items@) + rest, e2),
            ) by {
                assert(cbor_view_seq(items@) + rest =~= rest);
            }
        }
        while i < count
            invariant
                i <= count,
                pos < pos + hl <= cur <= bytes@.len(),
                forall|rest: Seq<CborData>, e2: int|
                    spec_parse_items(bytes@, cur as int, (count - i) as int) == Some((rest, e2))
                        ==> spec_parse_items(bytes@, (pos + hl) as int, count as int) == Some(
                        (cbor_view_seq(items@) + rest, e2),
                    ),
                spec_parse_items(bytes@, cur as int, (count - i) as int) is None
                    ==> spec_parse_items(bytes@, (pos + hl) as int, count as int) is None,
            decreases count - i,
        {
            let parsed = parse_value(bytes, cur);
            match parsed {
                Some((v, end)) => {
                    proof {
                        lemma_cbor_view_seq_push(items@, v);
                    }
                    let ghost old_items = items@;
                    let ghost old_cur = cur as int;
                    items.push(v);
                    cur = end;
                    i = i + 1;
                    proof {
                        assert forall|rest: Seq<CborData>, e2: int|
                            spec_parse_items(bytes@, cur as int, (count - i) as int) == Some(
                                (rest, e2),
                            ) implies spec_parse_items(bytes@, (pos + hl) as int, count as int)
                            == Some((cbor_view_seq(items@) + rest, e2)) by {
                            assert(spec_parse_items(bytes@, old_cur, (count - (i - 1)) as int)
                                == Some((seq![cbor_view(&v)] + rest, e2)));
                            assert(cbor_view_seq(old_items) + (seq![cbor_view(&v)] + rest)
                                =~= cbor_view_seq(items@) + rest);
                        }
                        if spec_parse_items(bytes@, cur as int, (count - i) as int) is None {
                            assert(spec_parse_items(bytes@, old_cur, (count - (i - 1)) as int)
                                is None);
                        }
                    }
                },
                None => {
                    proof {
                        assert(spec_parse_items(bytes@, cur as int, (count - i) as int) is None);
                        assert(spec_parse_items(bytes@, (pos + hl) as int, count as int) is None);
                        assert(spec_parse(bytes@, pos as int) is None);
                    }
                    return None;
                },
            }
        }
        proof {
            assert(spec_parse_items(bytes@, cur as int, (count - i) as int) == Some(
                (Seq::<CborData>::empty(), cur as int),
            ));
            assert(spec_parse_items(bytes@, (pos + hl) as int, count as int) == Some(
                (cbor_view_seq(items@) + Seq::<CborData>::empty(), cur as int),
            ));
            assert(cbor_view_seq(items@) + Seq::<CborData>::empty() =~= cbor_view_seq(items@));
            assert(spec_parse(bytes@, pos as int) == Some(
                (CborData::Array(cbor_view_seq(items@)), cur as int),
            ));
        }
        Some((CborValue::Array(items), cur))
    } else if major == 5 {
        let count = arg;
        let mut entries: Vec<(CborValue, CborValue)> = Vec::new();
        let mut cur: usize = pos + hl;
        let mut i: u64 = 0;
        proof {
            assert forall|rest: Seq<(CborData, CborData)>, e2: int|
                spec_parse_pairs(bytes@, cur as int, (count - i) as int) == Some((rest, e2))
                implies spec_parse_pairs(bytes@, (pos + hl) as int, count as int) == Some(
                (cbor_view_pairs(entries@) + rest, e2),
            ) by {
                assert(cbor_view_pairs(entries@) + rest =~= rest);
            }
        }
        while i < count
            invariant
                i <= count,
                pos < pos + hl <= cur <= bytes@.len(),
                forall|rest: Seq<(CborData, CborData)>, e2: int|
                    spec_parse_pairs(bytes@, cur as int, (count - i) as int) == Some((rest, e2))
                        ==> spec_parse_pairs(bytes@, (pos + hl) as int, count as int) == Some(
                        (cbor_view_pairs(entries@) + rest, e2),
                    ),
                spec_parse_pairs(bytes@, cur as int, (count - i) as int) is None
                    ==> spec_parse_pairs(bytes@, (pos + hl) as int, count as int) is None,
            decreases count - i,
        {
            let kparsed = parse_value(bytes, cur);
            match kparsed {
                Some((k, kend)) => {
                    let vparsed = parse_value(bytes, kend);
                    match vparsed {
                        Some((v, vend)) => {
                            proof {
                                lemma_cbor_view_pairs_push(entries@, k, v);
                            }
                            let ghost old_entries = entries@;
                            let ghost old_cur = cur as int;
                            entries.push((k, v));
                            cur = vend;
                            i = i + 1;
                            proof {
                                assert forall|rest: Seq<(CborData, CborData)>, e2: int|
                                    spec_parse_pairs(bytes@, cur as int, (count - i) as int)
                                        == Some((rest, e2)) implies spec_parse_pairs(
                                    bytes@,
                                    (pos + hl) as int,
                                    count as int,
                                ) == Some((cbor_view_pairs(entries@) + rest, e2)) by {
                                    assert(spec_parse_pairs(
                                        bytes@,
                                        old_cur,
                                        (count - (i - 1)) as int,
                                    ) == Some(
                                        (seq![(cbor_view(&k), cbor_view(&v))] + rest, e2),
                                    ));
                                    assert(cbor_view_pairs(old_entries) + (seq![
                                        (cbor_view(&k), cbor_view(&v)),
                                    ] + rest) =~= cbor_view_pairs(entries@) + rest);
                                }
                                if spec_parse_pairs(bytes@, cur as int, (count - i) as int)
                                    is None {
                                    assert(spec_parse_pairs(
                                        bytes@,
                                        old_cur,
                                        (count - (i - 1)) as int,
                                    ) is None);
                                }
                            }
                        },
                        None => {
                            proof {
                                assert(spec_parse(bytes@, kend as int) is None);
                                assert(spec_parse_pairs(bytes@, cur as int, (count - i) as int)
                                    is None);
                                assert(spec_parse_pairs(bytes@, (pos + hl) as int, count as int)
                                    is None);
                                assert(spec_parse(bytes@, pos as int) is None);
                            }
                            return None;
                        },
                    }
                },
                None => {
                    proof {
                        assert(spec_parse_pairs(bytes@, cur as int, (count - i) as int) is None);
                        assert(spec_parse_pairs(bytes@, (pos + hl) as int, count as int) is None);
                        assert(spec_parse(bytes@, pos as int) is None);
                    }
                    return None;
                },
            }
        }
        proof {
            assert(spec_parse_pairs(bytes@, cur as int, (count - i) as int) == Some(
                (Seq::<(CborData, CborData)>::empty(), cur as int),
            ));
            assert(spec_parse_pairs(bytes@, (pos + hl) as int, count as int) == Some(
                (cbor_view_pairs(entries@) + Seq::<(CborData, CborData)>::empty(), cur as int),
            ));
            assert(cbor_view_pairs(entries@) + Seq::<(CborData, CborData)>::empty()
                =~= cbor_view_pairs(entries@));
            assert(spec_parse(bytes@, pos as int) == Some(
                (CborData::Dict(cbor_view_pairs(entries@)), cur as int),
            ));
        }
        Some((CborValue::Dict(entries), cur))
    } else if major == 7 {
        let ai = bytes[pos] % 32;
        if ai == 20 {
            Some((CborValue::Bool(false), pos + 1))
        } else if ai == 21 {
            Some((CborValue::Bool(true), pos + 1))
        } else if ai == 22 {
            Some((CborValue::Null, pos + 1))
        } else {
            None
        }
    } else {
        None
    }
}

/// The value under the first entry whose key is the unsigned integer
/// `key`, searching front to back; None when no entry has that key.
pub open spec fn spec_lookup_uint(entries: Seq<(CborData, CborData)>, key: u64) -> Option<CborData>
    decreases entries.len(),
{
    if entries.len() == 0 {
        None
    } else if entries.first().0 == CborData::UInt(key) {
        Some(entries.first().1)
    } else {
        spec_lookup_uint(entries.drop_first(), key)
    }
}

/// The value under the first entry whose key is the text string with UTF-8
/// bytes `key`, searching front to back; None when no entry has that key.
pub open spec fn spec_lookup_text(entries: Seq<(CborData, CborData)>, key: Seq<u8>) -> Option<
    CborData,
>
    decreases entries.len(),
{
    if entries.len() == 0 {
        None
    } else if entries.first().0 == CborData::Text(key) {
        Some(entries.first().1)
    } else {
        spec_lookup_text(entries.drop_first(), key)
    }
}

pub proof fn lemma_cbor_view_pairs_index(entries: Seq<(CborValue, CborValue)>, j: int)
    requires
        0 <= j < entries.len(),
    ensures
        cbor_view_pairs(entries).len() == entries.len(),
        cbor_view_pairs(entries)[j] == (cbor_view(&entries[j].0), cbor_view(&entries[j].1)),
    decreases entries,
{
    lemma_cbor_view_pairs_len(entries);
    if j < entries.len() - 1 {
        lemma_cbor_view_pairs_index(entries.drop_last(), j);
    }
}

proof fn lemma_lookup_uint_skip(entries: Seq<(CborData, CborData)>, key: u64, i: int)
    requires
        0 <= i < entries.len(),
        entries[i].0 == CborData::UInt(key),
        forall|j: int| 0 <= j < i ==> entries[j].0 != CborData::UInt(key),
    ensures
        spec_lookup_uint(entries, key) == Some(entries[i].1),
    decreases entries.len(),
{
    if i > 0 {
        lemma_lookup_uint_skip(entries.drop_first(), key, i - 1);
    }
}

proof fn lemma_lookup_uint_none(entries: Seq<(CborData, CborData)>, key: u64)
    requires
        forall|j: int| 0 <= j < entries.len() ==> entries[j].0 != CborData::UInt(key),
    ensures
        spec_lookup_uint(entries, key) is None,
    decreases entries.len(),
{
    if entries.len() > 0 {
        lemma_lookup_uint_none(entries.drop_first(), key);
    }
}

proof fn lemma_lookup_text_skip(entries: Seq<(CborData, CborData)>, key: Seq<u8>, i: int)
    requires
        0 <= i < entries.len(),
        entries[i].0 == CborData::Text(key),
        forall|j: int| 0 <= j < i ==> entries[j].0 != CborData::Text(key),
    ensures
        spec_lookup_text(entries, key) == Some(entries[i].1),
    decreases entries.len(),
{
    if i > 0 {
        lemma_lookup_text_skip(entries.drop_first(), key, i - 1);
    }
}

proof fn lemma_lookup_text_none(entries: Seq<(CborData, CborData)>, key: Seq<u8>)
    requires
        forall|j: int| 0 <= j < entries.len() ==> entries[j].0 != CborData::Text(key),
    ensures
        spec_lookup_text(entries, key) is None,
    decreases entries.len(),
{
    if entries.len() > 0 {
        lemma_lookup_text_none(entries.drop_first(), key);
    }
}

/// Finds the value under an integer key in decoded map entries, front to
/// back, mirroring `spec_lookup_uint`.
pub fn lookup_uint<'a>(entries: &'a Vec<(CborValue, CborValue)>, key: u64) -> (r: Option<
    &'a CborValue,
>)
    ensures
        match r {
            Some(v) => spec_lookup_uint(cbor_view_pairs(entries@), key) == Some(cbor_view(v)),
            None => spec_lookup_uint(cbor_view_pairs(entries@), key) is None,
        },
{
    let ghost view = cbor_view_pairs(entries@);
    let mut i: usize = 0;
    while i < entries.len()
        invariant
            i <= entries@.len(),
            view == cbor_view_pairs(entries@),
            forall|j: int| 0 <= j < i ==> view[j].0 != CborData::UInt(key),
        decreases entries@.len() - i,
    {
        proof {
            lemma_cbor_view_pairs_index(entries@, i as int);
        }
        let hit = match &entries[i].0 {
            CborValue::UInt(k) => *k == key,
            _ => false,
        };
        if hit {
            proof {
                lemma_lookup_uint_skip(view, key, i as int);
            }
            return Some(&entries[i].1);
        }
        i = i + 1;
    }
    proof {
        lemma_cbor_view_pairs_len(entries@);
        lemma_lookup_uint_none(view, key);
    }
    None
}

/// Finds the value under a text key (given as its UTF-8 bytes) in decoded
/// map entries, front to back, mirroring `spec_lookup_text`.
pub fn lookup_text<'a>(entries: &'a Vec<(CborValue, CborValue)>, key: &[u8]) -> (r: Option<
    &'a CborValue,
>)
    ensures
        match r {
            Some(v) => spec_lookup_text(cbor_view_pairs(entries@), key@) == Some(cbor_view(v)),
            None => spec_lookup_text(cbor_view_pairs(entries@), key@) is None,
        },
{
    let ghost view = cbor_view_pairs(entries@);
    let mut i: usize = 0;
    while i < entries.len()
        invariant
            i <= entries@.len(),
            view == cbor_view_pairs(entries@),
            forall|j: int| 0 <= j < i ==> view[j].0 != CborData::Text(key@),
        decreases entries@.len() - i,
    {
        proof {
            lemma_cbor_view_pairs_index(entries@, i as int);
        }
        let hit = match &entries[i].0 {
            CborValue::Text(t) => crate::util::bytes_eq(t.as_slice(), key),
            _ => false,
        };
        if hit {
            proof {
                lemma_lookup_text_skip(view, key@, i as int);
            }
            return Some(&entries[i].1);
        }
        i = i + 1;
    }
    proof {
        lemma_cbor_view_pairs_len(entries@);
        lemma_lookup_text_none(view, key@);
    }
    None
}

} // verus!
