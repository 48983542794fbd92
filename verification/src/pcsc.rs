use vstd::prelude::*;

verus! {

// Reader discovery probes each PCSC reader with the FIDO applet SELECT
// APDU and keeps only readers whose response carries the marker "U2F_V2".
// The card I/O lives outside the library; the APDU bytes and the
// acceptance decision are fixed here.

/// The SELECT APDU for the FIDO applet: CLA 00, INS A4, P1 04, P2 00,
/// Lc 08, then the 8-byte applet identifier A0 00 00 06 47 2F 00 01.
pub open spec fn spec_select_fido2_apdu() -> Seq<u8> {
    seq![0x00u8, 0xa4, 0x04, 0x00, 0x08, 0xa0, 0x00, 0x00, 0x06, 0x47, 0x2f, 0x00, 0x01]
}

/// Builds the FIDO applet SELECT APDU.
pub fn select_fido2_apdu() -> (r: Vec<u8>)
    ensures
        r@ == spec_select_fido2_apdu(),
{
    let mut v: Vec<u8> = Vec::new();
    v.push(0x00);
    v.push(0xa4);
    v.push(0x04);
    v.push(0x00);
    v.push(0x08);
    v.push(0xa0);
    v.push(0x00);
    v.push(0x00);
    v.push(0x06);
    v.push(0x47);
    v.push(0x2f);
    v.push(0x00);
    v.push(0x01);
    proof {
        assert(v@ =~= spec_select_fido2_apdu());
    }
    v
}

/// The ASCII bytes of the marker "U2F_V2".
pub open spec fn spec_u2f_v2_marker() -> Seq<u8> {
    seq![0x55u8, 0x32, 0x46, 0x5f, 0x56, 0x32]
}

/// Whether a SELECT response marks a usable FIDO reader: the marker
/// "U2F_V2" occurs somewhere in the response, whatever surrounds it.
pub open spec fn spec_marks_fido_reader(resp: Seq<u8>) -> bool {
    exists|i: int|
        0 <= i && i + 6 <= resp.len() && #[trigger] resp.subrange(i, i + 6)
            == spec_u2f_v2_marker()
}

/// Decides whether a reader's SELECT response confirms the FIDO applet:
/// true exactly when the bytes "U2F_V2" occur anywhere in the response.
/// Readers whose response fails this are excluded from discovery, not
/// reported as errors.
pub fn is_fido_reader_response(resp: &[u8]) -> (r: bool)
    ensures
        r == spec_marks_fido_reader(resp@),
{
    let limit: usize = resp.len();
    if limit < 6 {
        proof {
            assert(!spec_marks_fido_reader(resp@));
        }
        return false;
    }
    let marker: [u8; 6] = [0x55, 0x32, 0x46, 0x5f, 0x56, 0x32];
    let mut i: usize = 0;
    while i <= limit - 6
        invariant
            limit == resp@.len(),
            6 <= limit,
            i <= limit - 6 + 1,
            marker@ == spec_u2f_v2_marker(),
            forall|j: int| 0 <= j < i ==> #[trigger] resp@.subrange(j, j + 6) != spec_u2f_v2_marker(),
        decreases limit - i,
    {
        let hit = resp[i] == marker[0] && resp[i + 1] == marker[1] && resp[i + 2] == marker[2]
            && resp[i + 3] == marker[3] && resp[i + 4] == marker[4] && resp[i + 5] == marker[5];
        if hit {
            proof {
                assert(resp@.subrange(i as int, i as int + 6) =~= spec_u2f_v2_marker());
                assert(spec_marks_fido_reader(resp@));
            }
            return true;
        }
        proof {
            assert(resp@.subrange(i as int, i as int + 6) != spec_u2f_v2_marker()) by {
                assert(resp@.subrange(i as int, i as int + 6)[0] == resp@[i as int]);
                assert(resp@.subrange(i as int, i as int + 6)[1] == resp@[i as int + 1]);
                assert(resp@.subrange(i as int, i as int + 6)[2] == resp@[i as int + 2]);
                assert(resp@.subrange(i as int, i as int + 6)[3] == resp@[i as int + 3]);
                assert(resp@.subrange(i as int, i as int + 6)[4] == resp@[i as int + 4]);
                assert(resp@.subrange(i as int, i as int + 6)[5] == resp@[i as int + 5]);
            }
        }
        i = i + 1;
    }
    proof {
        assert forall|k: int| 0 <= k && k + 6 <= resp@.len() implies #[trigger] resp@.subrange(
            k,
            k + 6,
        ) != spec_u2f_v2_marker() by {
            assert(k < i);
        }
    }
    false
}

} // verus!
