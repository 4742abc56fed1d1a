//! Protocol values on the wire: one 7-bit byte, or two 7-bit bytes
//! (most significant first) carrying a 14-bit value.
use vstd::prelude::*;

verus! {

/// How many bytes a protocol value occupies on the wire.
#[derive(Clone, Copy, Debug, PartialEq, Eq, Structural)]
pub enum ValueSize {
    OneByte,
    TwoBytes,
}

/// Number of wire bytes per value.
pub open spec fn width(w: ValueSize) -> int {
    match w {
        ValueSize::OneByte => 1,
        ValueSize::TwoBytes => 2,
    }
}

/// Largest value that can be carried at the given width.
pub open spec fn max_value(w: ValueSize) -> int {
    match w {
        ValueSize::OneByte => 127,
        ValueSize::TwoBytes => 16383,
    }
}

/// A value that can be carried at the given width.
pub open spec fn fits(v: int, w: ValueSize) -> bool {
    0 <= v <= max_value(w)
}

/// A SysEx data byte: the high bit is reserved for status bytes.
pub open spec fn is_data_byte(b: u8) -> bool {
    b < 128
}

/// The wire bytes of one value.
pub open spec fn value_bytes(v: u16, w: ValueSize) -> Seq<u8> {
    match w {
        ValueSize::OneByte => seq![v as u8],
        ValueSize::TwoBytes => seq![(v / 128) as u8, (v % 128) as u8],
    }
}

/// The wire bytes of a list of values, one after the other.
pub open spec fn values_bytes(vs: Seq<u16>, w: ValueSize) -> Seq<u8> {
    Seq::new(
        (vs.len() * width(w)) as nat,
        |i: int| value_bytes(vs[i / width(w)], w)[i % width(w)],
    )
}

/// Whether every value of the list can be carried at the given width.
pub open spec fn all_fit(vs: Seq<u16>, w: ValueSize) -> bool {
    forall|k: int| 0 <= k < vs.len() ==> fits(#[trigger] vs[k] as int, w)
}

/// Whether every byte is a data byte.
pub open spec fn all_data(b: Seq<u8>) -> bool {
    forall|j: int| 0 <= j < b.len() ==> is_data_byte(#[trigger] b[j])
}

/// Whether a value can be read at position `i`: enough bytes, all data bytes.
pub open spec fn value_readable(b: Seq<u8>, i: int, w: ValueSize) -> bool {
    &&& 0 <= i
    &&& i + width(w) <= b.len()
    &&& forall|j: int| i <= j < i + width(w) ==> is_data_byte(#[trigger] b[j])
}

/// The value whose bytes start at position `i`.
pub open spec fn value_at(b: Seq<u8>, i: int, w: ValueSize) -> u16 {
    match w {
        ValueSize::OneByte => b[i] as u16,
        ValueSize::TwoBytes => (b[i] * 128 + b[i + 1]) as u16,
    }
}

/// The list of values that a run of bytes carries, if it is made of whole
/// values of data bytes.
pub open spec fn decode_values(b: Seq<u8>, w: ValueSize) -> Option<Seq<u16>> {
    if (b.len() as int) % width(w) == 0 && all_data(b) {
        Some(Seq::new((b.len() as int / width(w)) as nat, |k: int| value_at(b, k * width(w), w)))
    } else {
        None
    }
}

/// Appends the wire bytes of `v` to `out`.
pub fn encode_value(v: u16, w: ValueSize, out: &mut Vec<u8>)
    requires
        fits(v as int, w),
    ensures
        final(out)@ == old(out)@ + value_bytes(v, w),
{
    match w {
        ValueSize::OneByte => {
            out.push(v as u8);
            assert(final(out)@ =~= old(out)@ + value_bytes(v, w));
        },
        ValueSize::TwoBytes => {
            out.push((v / 128) as u8);
            out.push((v % 128) as u8);
            assert(final(out)@ =~= old(out)@ + value_bytes(v, w));
        },
    }
}

/// Reads the value whose bytes start at position `i`, if there is one.
pub fn decode_value(b: &[u8], i: usize, w: ValueSize) -> (r: Option<u16>)
    ensures
        r == (if value_readable(b@, i as int, w) {
            Some(value_at(b@, i as int, w))
        } else {
            None::<u16>
        }),
{
    match w {
        ValueSize::OneByte => {
            if i < b.len() && b[i] < 128 {
                Some(b[i] as u16)
            } else {
                None
            }
        },
        ValueSize::TwoBytes => {
            if i < b.len() && b.len() - i >= 2 && b[i] < 128 && b[i + 1] < 128 {
                Some(b[i] as u16 * 128 + b[i + 1] as u16)
            } else {
                None
            }
        },
    }
}

/// Number of wire bytes per value, as a machine integer.
pub fn value_width(w: ValueSize) -> (r: usize)
    ensures
        r as int == width(w),
{
    match w {
        ValueSize::OneByte => 1,
        ValueSize::TwoBytes => 2,
    }
}

/// Appending a value to a list appends its bytes to the list's bytes.
pub proof fn lemma_values_bytes_push(vs: Seq<u16>, v: u16, w: ValueSize)
    ensures
        values_bytes(vs.push(v), w) == values_bytes(vs, w) + value_bytes(v, w),
{
    let n = vs.len() as int;
    let lhs = values_bytes(vs.push(v), w);
    let rhs = values_bytes(vs, w) + value_bytes(v, w);
    match w {
        ValueSize::OneByte => {
            assert(lhs =~= rhs);
        },
        ValueSize::TwoBytes => {
            assert forall|i: int| 0 <= i < lhs.len() implies lhs[i] == rhs[i] by {
                if i < 2 * n {
                    assert(i / 2 < n);
                } else {
                    assert(i / 2 == n);
                    assert(i % 2 == i - 2 * n);
                }
            }
            assert(lhs =~= rhs);
        },
    }
}

/// Decoding the bytes of a list of values that all fit gives the list back.
pub proof fn lemma_values_round_trip(vs: Seq<u16>, w: ValueSize)
    requires
        all_fit(vs, w),
    ensures
        decode_values(values_bytes(vs, w), w) == Some(vs),
{
    let b = values_bytes(vs, w);
    let n = vs.len() as int;
    match w {
        ValueSize::OneByte => {
            assert forall|j: int| 0 <= j < b.len() implies is_data_byte(#[trigger] b[j]) by {
                assert(fits(vs[j] as int, w));
            }
            let d = Seq::new((b.len() as int / width(w)) as nat, |k: int| value_at(b, k * width(w), w));
            assert forall|k: int| 0 <= k < n implies d[k] == vs[k] by {
                assert(fits(vs[k] as int, w));
            }
            assert(d =~= vs);
        },
        ValueSize::TwoBytes => {
            assert forall|j: int| 0 <= j < b.len() implies is_data_byte(#[trigger] b[j]) by {
                assert(0 <= j / 2 < n);
                assert(fits(vs[j / 2] as int, w));
            }
            assert(b.len() == 2 * n);
            let d = Seq::new((b.len() as int / width(w)) as nat, |k: int| value_at(b, k * width(w), w));
            assert forall|k: int| 0 <= k < n implies d[k] == vs[k] by {
                assert((2 * k) / 2 == k);
                assert((2 * k + 1) / 2 == k);
                assert((2 * k) % 2 == 0);
                assert((2 * k + 1) % 2 == 1);
                assert(fits(vs[k] as int, w));
                assert(b[2 * k] == (vs[k] / 128) as u8);
                assert(b[2 * k + 1] == (vs[k] % 128) as u8);
            }
            assert(d.len() == n);
            assert(d =~= vs);
        },
    }
}

/// A two-byte value splits back into its bytes.
pub proof fn lemma_two_bytes_split(hi: int, lo: int)
    requires
        0 <= hi < 128,
        0 <= lo < 128,
    ensures
        (hi * 128 + lo) / 128 == hi,
        (hi * 128 + lo) % 128 == lo,
        hi * 128 + lo <= 16383,
{
    assert((hi * 128 + lo) / 128 == hi) by (nonlinear_arith)
        requires 0 <= hi < 128, 0 <= lo < 128;
    assert((hi * 128 + lo) % 128 == lo) by (nonlinear_arith)
        requires 0 <= hi < 128, 0 <= lo < 128;
    assert(hi * 128 + lo <= 16383) by (nonlinear_arith)
        requires 0 <= hi < 128, 0 <= lo < 128;
}

/// Bytes that decode into a list of values are exactly that list's bytes,
/// and the values fit the width.
pub proof fn lemma_values_canonical(b: Seq<u8>, w: ValueSize)
    requires
        decode_values(b, w) is Some,
    ensures
        values_bytes(decode_values(b, w)->Some_0, w) == b,
        all_fit(decode_values(b, w)->Some_0, w),
{
    let vs = decode_values(b, w)->Some_0;
    let e = values_bytes(vs, w);
    match w {
        ValueSize::OneByte => {
            assert(vs.len() == b.len());
            assert forall|i: int| 0 <= i < b.len() implies e[i] == b[i] by {
                assert(i / 1 == i);
                assert(i % 1 == 0);
                assert(vs[i] == b[i] as u16);
            }
            assert(e =~= b);
            assert forall|k: int| 0 <= k < vs.len() implies fits(#[trigger] vs[k] as int, w) by {
                assert(is_data_byte(b[k]));
                assert(vs[k] == b[k] as u16);
            }
        },
        ValueSize::TwoBytes => {
            let n = vs.len() as int;
            assert(b.len() == 2 * n);
            let wd = width(w);
            assert(wd == 2);
            assert(vs.len() * wd == 2 * n) by (nonlinear_arith)
                requires wd == 2, n == vs.len();
            assert(e.len() == 2 * n);
            assert forall|i: int| 0 <= i < b.len() implies e[i] == b[i] by {
                let k = i / 2;
                assert(0 <= k < n);
                assert(is_data_byte(b[2 * k]));
                assert(is_data_byte(b[2 * k + 1]));
                assert(k * 2 == 2 * k);
                let hi = b[2 * k] as int;
                let lo = b[2 * k + 1] as int;
                lemma_two_bytes_split(hi, lo);
                let v = vs[k];
                assert(v as int == hi * 128 + lo);
                assert(e[i] == value_bytes(v, w)[i % 2]);
                if i % 2 == 0 {
                    assert(i == 2 * k);
                    assert(value_bytes(v, w)[0] == (v / 128) as u8);
                    assert(v / 128 == hi);
                } else {
                    assert(i == 2 * k + 1);
                    assert(value_bytes(v, w)[1] == (v % 128) as u8);
                    assert(v % 128 == lo);
                }
            }
            assert(e =~= b);
            assert forall|k: int| 0 <= k < vs.len() implies fits(#[trigger] vs[k] as int, w) by {
                assert(is_data_byte(b[2 * k]));
                assert(is_data_byte(b[2 * k + 1]));
                assert(k * 2 == 2 * k);
                lemma_two_bytes_split(b[2 * k] as int, b[2 * k + 1] as int);
            }
        },
    }
}

/// Appends the wire bytes of every value of `vs` to `out`.
pub fn encode_values(vs: &[u16], w: ValueSize, out: &mut Vec<u8>)
    requires
        all_fit(vs@, w),
    ensures
        final(out)@ == old(out)@ + values_bytes(vs@, w),
{
    let mut k: usize = 0;
    while k < vs.len()
        invariant
            k <= vs.len(),
            all_fit(vs@, w),
            out@ == old(out)@ + values_bytes(vs@.subrange(0, k as int), w),
        decreases vs.len() - k,
    {
        let v = vs[k];
        proof {
            lemma_values_bytes_push(vs@.subrange(0, k as int), v, w);
            assert(vs@.subrange(0, k + 1) =~= vs@.subrange(0, k as int).push(v));
            assert(fits(vs@[k as int] as int, w));
        }
        encode_value(v, w, out);
        k += 1;
        proof {
            assert(out@ =~= old(out)@ + values_bytes(vs@.subrange(0, k as int), w));
        }
    }
    assert(vs@.subrange(0, vs@.len() as int) =~= vs@);
}

/// Reads the list of values carried by `b[start..end]`, if it is made of
/// whole values of data bytes.
pub fn decode_values_in(b: &[u8], start: usize, end: usize, w: ValueSize) -> (r: Option<Vec<u16>>)
    requires
        start <= end <= b.len(),
    ensures
        match r {
            Some(vs) => decode_values(b@.subrange(start as int, end as int), w) == Some(vs@),
            None => decode_values(b@.subrange(start as int, end as int), w) is None,
        },
{
    let ghost sub = b@.subrange(start as int, end as int);
    let wd = value_width(w);
    if (end - start) % wd != 0 {
        return None;
    }
    let n = (end - start) / wd;
    let mut out: Vec<u16> = Vec::new();
    let mut k: usize = 0;
    while k < n
        invariant
            start <= end <= b.len(),
            sub == b@.subrange(start as int, end as int),
            wd as int == width(w),
            (end - start) as int % width(w) == 0,
            n as int == (end - start) as int / width(w),
            k <= n,
            out@ == Seq::new(k as nat, |j: int| value_at(sub, j * width(w), w)),
            forall|j: int| 0 <= j < k * width(w) ==> is_data_byte(#[trigger] sub[j]),
        decreases n - k,
    {
        let pos = start + k * wd;
        assert(k * wd + wd <= n * wd) by (nonlinear_arith)
            requires k < n;
        assert(n * wd == end - start) by (nonlinear_arith)
            requires (end - start) as int % wd as int == 0, n as int == (end - start) as int / wd as int, wd >= 1;
        match decode_value(b, pos, w) {
            Some(v) => {
                proof {
                    assert(value_at(sub, k * width(w), w) == v);
                    assert forall|j: int| 0 <= j < (k + 1) * width(w) implies is_data_byte(#[trigger] sub[j]) by {
                        if j >= k * width(w) {
                            assert(sub[j] == b@[start + j]);
                        }
                    }
                }
                out.push(v);
                k += 1;
                proof {
                    assert(out@ =~= Seq::new(k as nat, |j: int| value_at(sub, j * width(w), w)));
                }
            },
            None => {
                proof {
                    let i = pos as int;
                    assert(i + width(w) <= b@.len());
                    let j = choose|j: int| i <= j < i + width(w) && !is_data_byte(#[trigger] b@[j]);
                    assert(sub[j - start] == b@[j]);
                    assert(!all_data(sub));
                }
                return None;
            },
        }
    }
    proof {
        assert(n * width(w) == sub.len()) by (nonlinear_arith)
            requires (sub.len() as int) % width(w) == 0, n as int == (sub.len() as int) / width(w), width(w) >= 1;
        assert(all_data(sub));
        assert(out@ =~= Seq::new((sub.len() as int / width(w)) as nat, |j: int| value_at(sub, j * width(w), w)));
    }
    Some(out)
}

} // verus!
