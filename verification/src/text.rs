//! Parsing of the dotted-decimal hardware-address text form.
//!
//! A MAC address is written as six decimal octets separated by dots, for
//! example `0.1.2.3.255.5`.  The specification functions here define the
//! grammar: the byte string splits on every dot, and each field must be a
//! non-empty run of ASCII digits whose decimal value fits in one octet.

use vstd::prelude::*;

verus! {

/// The ASCII code of the dot separator.
pub const DOT: u8 = 46;

/// The ASCII code of the digit zero.
pub const DIGIT_ZERO: u8 = 48;

/// `b` is an ASCII decimal digit.
pub open spec fn is_digit_byte(b: u8) -> bool {
    DIGIT_ZERO <= b <= DIGIT_ZERO + 9
}

/// The decimal value of a digit string, most significant digit first.
pub open spec fn dec_val(f: Seq<u8>) -> int
    decreases f.len(),
{
    if f.len() == 0 {
        0
    } else {
        10 * dec_val(f.drop_last()) + (f.last() - DIGIT_ZERO)
    }
}

/// A valid octet field: non-empty, all digits, value at most 255.
pub open spec fn valid_octet_text(f: Seq<u8>) -> bool {
    &&& f.len() > 0
    &&& (forall|i: int| 0 <= i < f.len() ==> is_digit_byte(#[trigger] f[i]))
    &&& dec_val(f) <= 255
}

/// The fields of `s` split on every dot; a string without dots is one
/// field, and every dot separates two (possibly empty) fields.
pub open spec fn split_dots(s: Seq<u8>) -> Seq<Seq<u8>>
    decreases s.len(),
{
    if s.len() == 0 {
        seq![Seq::<u8>::empty()]
    } else if s[0] == DOT {
        seq![Seq::<u8>::empty()] + split_dots(s.skip(1))
    } else {
        let rest = split_dots(s.skip(1));
        seq![seq![s[0]] + rest[0]] + rest.skip(1)
    }
}

/// `s` is a valid dotted-decimal MAC address: exactly six fields, each a
/// valid octet.
pub open spec fn mac_text_valid(s: Seq<u8>) -> bool {
    &&& split_dots(s).len() == 6
    &&& (forall|i: int| 0 <= i < 6 ==> valid_octet_text(#[trigger] split_dots(s)[i]))
}

/// The six octet values of a valid dotted-decimal MAC address.
pub open spec fn mac_octets(s: Seq<u8>) -> Seq<u8> {
    split_dots(s).map_values(|f: Seq<u8>| dec_val(f) as u8)
}

/// A split never yields fewer than one field.
proof fn lemma_split_dots_nonempty(s: Seq<u8>)
    ensures
        split_dots(s).len() >= 1,
    decreases s.len(),
{
    if s.len() != 0 {
        lemma_split_dots_nonempty(s.skip(1));
    }
}

/// If the first `j` bytes of `s` hold no dot and byte `j` (when present) is
/// a dot, then the first field of the split is exactly those `j` bytes.
proof fn lemma_split_first_field(s: Seq<u8>, j: int)
    requires
        0 <= j <= s.len(),
        forall|k: int| 0 <= k < j ==> #[trigger] s[k] != DOT,
        j < s.len() ==> s[j] == DOT,
    ensures
        j == s.len() ==> split_dots(s) =~~= seq![s],
        j < s.len() ==> split_dots(s) =~~= seq![s.take(j)] + split_dots(s.skip(j + 1)),
    decreases j,
{
    lemma_split_dots_nonempty(s);
    if j == 0 {
        if s.len() == 0 {
            assert(split_dots(s) =~~= seq![s]);
        } else {
            assert(s[0] == DOT);
            assert(split_dots(s) =~~= seq![s.take(0)] + split_dots(s.skip(1)));
        }
    } else {
        let t = s.skip(1);
        assert(forall|k: int| 0 <= k < j - 1 ==> #[trigger] t[k] != DOT) by {
            assert(forall|k: int| 0 <= k < j - 1 ==> #[trigger] t[k] == s[k + 1]);
        }
        lemma_split_first_field(t, j - 1);
        lemma_split_dots_nonempty(t);
        let rest = split_dots(t);
        if j == s.len() {
            assert(rest =~~= seq![t]);
            assert(seq![s[0]] + rest[0] =~= s);
            assert(split_dots(s) =~~= seq![s]);
        } else {
            assert(rest =~~= seq![t.take(j - 1)] + split_dots(t.skip(j)));
            assert(seq![s[0]] + t.take(j - 1) =~= s.take(j));
            assert(t.skip(j) =~= s.skip(j + 1));
            assert(rest.skip(1) =~~= split_dots(s.skip(j + 1)));
            assert(split_dots(s) =~~= seq![s.take(j)] + split_dots(s.skip(j + 1)));
        }
    }
}

/// Parses one octet field `s[start..end]`: returns its decimal value when
/// the field is a valid octet, and nothing otherwise.
fn parse_octet(s: &Vec<u8>, start: usize, end: usize) -> (r: Option<u8>)
    requires
        start <= end <= s@.len(),
    ensures
        r is Some <==> valid_octet_text(s@.subrange(start as int, end as int)),
        r matches Some(v) ==> v as int == dec_val(s@.subrange(start as int, end as int)),
{
    let ghost fld = s@.subrange(start as int, end as int);
    if start == end {
        return None;
    }
    let mut v: u16 = 0;
    let mut too_big: bool = false;
    let mut j: usize = start;
    while j < end
        invariant
            start <= j <= end <= s@.len(),
            forall|i: int| start <= i < j ==> is_digit_byte(#[trigger] s@[i]),
            !too_big ==> v as int == dec_val(s@.subrange(start as int, j as int)) && v <= 255,
            too_big ==> dec_val(s@.subrange(start as int, j as int)) > 255,
            fld == s@.subrange(start as int, end as int),
        decreases end - j,
    {
        let b = s[j];
        if b < DIGIT_ZERO || b > DIGIT_ZERO + 9 {
            proof {
                assert(fld[j - start] == s@[j as int]);
                assert(!valid_octet_text(fld));
            }
            return None;
        }
        proof {
            let pre = s@.subrange(start as int, j as int);
            let cur = s@.subrange(start as int, j + 1);
            assert(cur.drop_last() =~= pre);
            assert(cur.last() == s@[j as int]);
        }
        let d = b - DIGIT_ZERO;
        if too_big {
        } else {
            let nv = v * 10 + d as u16;
            if nv > 255 {
                too_big = true;
            } else {
                v = nv;
            }
        }
        j = j + 1;
    }
    proof {
        assert(forall|i: int| 0 <= i < fld.len() ==> fld[i] == s@[start + i]);
    }
    if too_big {
        proof {
            assert(!valid_octet_text(fld));
        }
        None
    } else {
        Some(v as u8)
    }
}

/// Parses a dotted-decimal MAC address from its UTF-8 bytes: returns the
/// six octets when the text matches the grammar, and nothing otherwise.
pub fn parse_mac_text(s: &Vec<u8>) -> (r: Option<[u8; 6]>)
    ensures
        r is Some <==> mac_text_valid(s@),
        r matches Some(m) ==> m@ == mac_octets(s@),
{
    let mut octets: Vec<u8> = Vec::new();
    let mut start: usize = 0;
    let ghost mut done: Seq<Seq<u8>> = Seq::empty();
    proof {
        assert(s@.skip(0) =~= s@);
        assert(Seq::<Seq<u8>>::empty() + split_dots(s@) =~~= split_dots(s@));
    }
    loop
        invariant
            start <= s@.len(),
            split_dots(s@) == done + split_dots(s@.skip(start as int)),
            done.len() == octets@.len(),
            forall|i: int|
                0 <= i < done.len() ==> valid_octet_text(#[trigger] done[i]) && octets@[i] as int
                    == dec_val(done[i]),
        decreases s@.len() - start,
    {
        let ghost suffix = s@.skip(start as int);
        // scan for the next dot
        let mut end: usize = start;
        while end < s.len() && s[end] != DOT
            invariant
                start <= end <= s@.len(),
                forall|k: int| start <= k < end ==> #[trigger] s@[k] != DOT,
            decreases s@.len() - end,
        {
            end = end + 1;
        }
        let ghost fld = s@.subrange(start as int, end as int);
        proof {
            assert(forall|k: int|
                0 <= k < end - start ==> #[trigger] suffix[k] == s@[start + k]);
            if (end as int) < s@.len() {
                assert(suffix[end - start] == s@[end as int]);
            }
            lemma_split_first_field(suffix, end - start);
            assert(suffix.take(end - start) =~= fld);
            if (end as int) < s@.len() {
                assert(suffix.skip(end - start + 1) =~= s@.skip(end + 1));
                assert(split_dots(suffix) =~~= seq![fld] + split_dots(s@.skip(end + 1)));
            } else {
                assert(suffix =~= fld);
                assert(split_dots(suffix) =~~= seq![fld]);
            }
        }
        let parsed = parse_octet(s, start, end);
        match parsed {
            None => {
                proof {
                    if (end as int) < s@.len() {
                        lemma_split_dots_nonempty(s@.skip(end + 1));
                        assert(split_dots(s@) =~~= (done + seq![fld]) + split_dots(
                            s@.skip(end + 1),
                        ));
                    } else {
                        assert(split_dots(s@) =~~= done + seq![fld]);
                    }
                    assert(split_dots(s@)[done.len() as int] == fld);
                    if mac_text_valid(s@) {
                        assert(done.len() < 6);
                        assert(valid_octet_text(split_dots(s@)[done.len() as int]));
                        assert(false);
                    }
                }
                return None;
            },
            Some(v) => {
                octets.push(v);
                proof {
                    done = done.push(fld);
                }
                if end == s.len() {
                    proof {
                        assert(split_dots(s@) =~~= done);
                    }
                    if octets.len() == 6 {
                        let m: [u8; 6] = [octets[0], octets[1], octets[2], octets[3], octets[4],
                            octets[5]];
                        proof {
                            assert(mac_text_valid(s@));
                            assert(m@ =~= mac_octets(s@));
                        }
                        return Some(m);
                    } else {
                        proof {
                            assert(split_dots(s@).len() != 6);
                        }
                        return None;
                    }
                } else {
                    proof {
                        assert(split_dots(s@) =~~= done + split_dots(s@.skip(end + 1)));
                    }
                    start = end + 1;
                }
            },
        }
    }
}

} // verus!
