use vstd::prelude::*;
use vstd::string::StringSliceAdditionalSpecFns;
use vstd::utf8::encode_utf8;

verus! {

/// The 16-bit signed value of a 12-bit two's-complement field (bits above 11 are
/// ignored).
pub open spec fn sext12(value: u16) -> int {
    let raw = (value % 4096) as int;
    if raw >= 2048 {
        raw - 4096
    } else {
        raw
    }
}

/// Sign-extends the low 12 bits of `value` to a 16-bit signed integer.
pub fn hex12_to_i16(value: u16) -> (r: i16)
    ensures
        r as int == sext12(value),
{
    let raw = value & 0x0fffu16;
    assert(raw == value % 4096) by (bit_vector)
        requires
            raw == value & 0x0fffu16,
    ;
    if raw & 0x0800u16 != 0 {
        assert(raw & 0x0800u16 != 0 ==> raw >= 2048) by (bit_vector)
            requires
                raw < 4096,
        ;
        assert(((raw | 0xf000u16) as i16) as int == raw as int - 4096) by (bit_vector)
            requires
                raw < 4096,
                raw & 0x0800u16 != 0,
        ;
        (raw | 0xf000u16) as i16
    } else {
        assert(raw & 0x0800u16 == 0 ==> raw < 2048) by (bit_vector)
            requires
                raw < 4096,
        ;
        raw as i16
    }
}

/// The value of a hexadecimal digit, either case.
pub open spec fn hex_digit(c: u8) -> Option<nat> {
    if 48 <= c <= 57 {
        Some((c - 48) as nat)
    } else if 97 <= c <= 102 {
        Some((c - 87) as nat)
    } else if 65 <= c <= 70 {
        Some((c - 55) as nat)
    } else {
        None
    }
}

/// The value of the three hexadecimal digits of `b` at `at`.
pub open spec fn hex3(b: Seq<u8>, at: int) -> Option<nat> {
    if at + 3 <= b.len() && hex_digit(b[at]) is Some && hex_digit(b[at + 1]) is Some
        && hex_digit(b[at + 2]) is Some {
        Some(
            hex_digit(b[at])->Some_0 * 256 + hex_digit(b[at + 1])->Some_0 * 16 + hex_digit(
                b[at + 2],
            )->Some_0,
        )
    } else {
        None
    }
}

/// Whether a line carries a sample: it starts with "0x00".
pub open spec fn is_marker(b: Seq<u8>) -> bool {
    b.len() >= 4 && b[0] == 48 && b[1] == 120 && b[2] == 48 && b[3] == 48
}

/// The (I, Q) sample of a marker line: Q in the three digits after the marker,
/// I in the three after those.
pub open spec fn decode_marker(b: Seq<u8>) -> Option<(i16, i16)> {
    match (hex3(b, 7), hex3(b, 4)) {
        (Some(i), Some(q)) => Some((sext12(i as u16) as i16, sext12(q as u16) as i16)),
        _ => None,
    }
}

/// The samples of the two paths of a capture: marker lines alternate between
/// path 1 and path 2, starting with path 1; other lines are skipped. `None` when
/// a marker line does not hold two 12-bit hexadecimal fields.
pub open spec fn parse_spec(lines: Seq<Seq<u8>>) -> Option<(Seq<(i16, i16)>, Seq<(i16, i16)>)>
    decreases lines.len(),
{
    if lines.len() == 0 {
        Some((Seq::empty(), Seq::empty()))
    } else {
        match parse_spec(lines.drop_last()) {
            None => None,
            Some((xs, ys)) => {
                let l = lines.last();
                if !is_marker(l) {
                    Some((xs, ys))
                } else {
                    match decode_marker(l) {
                        None => None,
                        Some(s) => if xs.len() == ys.len() {
                            Some((xs.push(s), ys))
                        } else {
                            Some((xs, ys.push(s)))
                        },
                    }
                }
            },
        }
    }
}

/// The bytes of each line.
pub open spec fn lines_bytes(lines: Seq<String>) -> Seq<Seq<u8>> {
    lines.map_values(|s: String| encode_utf8(s@))
}

/// A capture file has a marker line that is not a well-formed sample.
#[derive(Debug, Clone, Copy, PartialEq, Eq, Structural)]
pub enum CaptureError {
    MalformedMarker,
}

/// The I and Q samples of the two receive paths of a capture.
pub struct Capture {
    pub i_path1: Vec<i16>,
    pub q_path1: Vec<i16>,
    pub i_path2: Vec<i16>,
    pub q_path2: Vec<i16>,
}

impl Capture {
    /// Whether the capture holds exactly the samples `xs` and `ys`.
    pub open spec fn holds(&self, xs: Seq<(i16, i16)>, ys: Seq<(i16, i16)>) -> bool {
        &&& self.i_path1@ == xs.map_values(|s: (i16, i16)| s.0)
        &&& self.q_path1@ == xs.map_values(|s: (i16, i16)| s.1)
        &&& self.i_path2@ == ys.map_values(|s: (i16, i16)| s.0)
        &&& self.q_path2@ == ys.map_values(|s: (i16, i16)| s.1)
    }
}

fn hex_digit_exec(c: u8) -> (r: Option<u16>)
    ensures
        r is Some <==> hex_digit(c) is Some,
        r is Some ==> r->Some_0 == hex_digit(c)->Some_0,
{
    if 48 <= c && c <= 57 {
        Some((c - 48) as u16)
    } else if 97 <= c && c <= 102 {
        Some((c - 87) as u16)
    } else if 65 <= c && c <= 70 {
        Some((c - 55) as u16)
    } else {
        None
    }
}

fn hex3_exec(b: &[u8], at: usize) -> (r: Option<u16>)
    requires
        at + 3 <= b@.len(),
    ensures
        r is Some <==> hex3(b@, at as int) is Some,
        r is Some ==> r->Some_0 == hex3(b@, at as int)->Some_0,
{
    match (hex_digit_exec(b[at]), hex_digit_exec(b[at + 1]), hex_digit_exec(b[at + 2])) {
        (Some(x), Some(y), Some(z)) => Some(x * 256 + y * 16 + z),
        _ => None,
    }
}

/// Splits a capture, given as its lines, into the samples of its two paths.
pub fn parse_capture(lines: &Vec<String>) -> (r: Result<Capture, CaptureError>)
    ensures
        r is Ok <==> parse_spec(lines_bytes(lines@)) is Some,
        r is Ok ==> r->Ok_0.holds(
            parse_spec(lines_bytes(lines@))->Some_0.0,
            parse_spec(lines_bytes(lines@))->Some_0.1,
        ),
        r is Err ==> r->Err_0 == CaptureError::MalformedMarker,
{
    let mut cap = Capture {
        i_path1: Vec::new(),
        q_path1: Vec::new(),
        i_path2: Vec::new(),
        q_path2: Vec::new(),
    };
    let mut first = true;
    let ghost all = lines_bytes(lines@);
    let mut k: usize = 0;
    proof {
        assert(all.subrange(0, 0) =~= Seq::<Seq<u8>>::empty());
        assert(cap.i_path1@ =~= Seq::<(i16, i16)>::empty().map_values(|s: (i16, i16)| s.0));
        assert(cap.q_path1@ =~= Seq::<(i16, i16)>::empty().map_values(|s: (i16, i16)| s.1));
    }
    while k < lines.len()
        invariant
            k <= lines@.len(),
            all == lines_bytes(lines@),
            parse_spec(all.subrange(0, k as int)) is Some,
            cap.holds(
                parse_spec(all.subrange(0, k as int))->Some_0.0,
                parse_spec(all.subrange(0, k as int))->Some_0.1,
            ),
            first <==> cap.i_path1@.len() == cap.i_path2@.len(),
            cap.i_path1@.len() == cap.i_path2@.len() || cap.i_path1@.len() == cap.i_path2@.len()
                + 1,
        decreases lines@.len() - k,
    {
        let ghost pre = all.subrange(0, k as int);
        let ghost next = all.subrange(0, k as int + 1);
        assert(next.drop_last() =~= pre);
        let b = lines[k].as_str().as_bytes();
        assert(b@ == all[k as int]);
        assert(next.last() == all[k as int]);
        let marker = b.len() >= 4 && b[0] == 48 && b[1] == 120 && b[2] == 48 && b[3] == 48;
        if marker {
            if b.len() < 10 {
                assert(hex3(b@, 7) is None);
                assert(parse_spec(next) is None);
                assert(parse_spec(all.subrange(0, lines@.len() as int)) is None) by {
                    lemma_parse_fails_on(all, k as int + 1);
                }
                assert(all.subrange(0, lines@.len() as int) =~= all);
                return Err(CaptureError::MalformedMarker);
            }
            let q = hex3_exec(b, 4);
            let i = hex3_exec(b, 7);
            match (i, q) {
                (Some(iv), Some(qv)) => {
                    let iv16 = hex12_to_i16(iv);
                    let qv16 = hex12_to_i16(qv);
                    if first {
                        cap.i_path1.push(iv16);
                        cap.q_path1.push(qv16);
                    } else {
                        cap.i_path2.push(iv16);
                        cap.q_path2.push(qv16);
                    }
                    first = !first;
                    proof {
                        let p = parse_spec(next)->Some_0;
                        assert(cap.i_path1@ =~= p.0.map_values(|s: (i16, i16)| s.0));
                        assert(cap.q_path1@ =~= p.0.map_values(|s: (i16, i16)| s.1));
                        assert(cap.i_path2@ =~= p.1.map_values(|s: (i16, i16)| s.0));
                        assert(cap.q_path2@ =~= p.1.map_values(|s: (i16, i16)| s.1));
                    }
                },
                _ => {
                    assert(parse_spec(next) is None);
                    assert(parse_spec(all.subrange(0, lines@.len() as int)) is None) by {
                        lemma_parse_fails_on(all, k as int + 1);
                    }
                    assert(all.subrange(0, lines@.len() as int) =~= all);
                    return Err(CaptureError::MalformedMarker);
                },
            }
        }
        k = k + 1;
    }
    assert(all.subrange(0, lines@.len() as int) =~= all);
    Ok(cap)
}

/// Once a prefix of the lines fails to parse, every longer prefix does.
proof fn lemma_parse_fails_on(all: Seq<Seq<u8>>, k: int)
    requires
        0 <= k <= all.len(),
        parse_spec(all.subrange(0, k)) is None,
    ensures
        parse_spec(all.subrange(0, all.len() as int)) is None,
    decreases all.len() - k,
{
    if k < all.len() {
        assert(all.subrange(0, k + 1).drop_last() =~= all.subrange(0, k));
        lemma_parse_fails_on(all, k + 1);
    }
}

} // verus!
