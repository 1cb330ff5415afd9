use vstd::prelude::*;

verus! {

/// The UTF-16 code units that encode a single character: one unit for
/// values below `0x10000`, a surrogate pair for the rest.
pub open spec fn utf16_units(c: char) -> Seq<u16> {
    let v = c as u32;
    if v < 0x10000 {
        seq![v as u16]
    } else {
        seq![
            ((0xD800 + (v - 0x10000) / 0x400) as u16),
            ((0xDC00 + (v - 0x10000) % 0x400) as u16),
        ]
    }
}

/// The UTF-16 encoding of a character sequence.
pub open spec fn utf16_encode(s: Seq<char>) -> Seq<u16>
    decreases s.len(),
{
    if s.len() == 0 {
        Seq::empty()
    } else {
        utf16_encode(s.drop_last()) + utf16_units(s.last())
    }
}

/// Conversion of native text into the null-terminated wide form the
/// hosting interfaces expect.
pub trait WinStr {
    /// The characters being encoded.
    spec fn text(&self) -> Seq<char>;

    /// The UTF-16 code units of the text, with a terminating zero unit.
    fn to_bstr(&self) -> (r: Vec<u16>)
        ensures
            r@ == utf16_encode(self.text()).push(0),
    ;
}

impl WinStr for String {
    open spec fn text(&self) -> Seq<char> {
        self@
    }

    fn to_bstr(&self) -> (r: Vec<u16>) {
        encode_utf16_z(self.as_str())
    }
}

impl<'a> WinStr for &'a str {
    open spec fn text(&self) -> Seq<char> {
        self@
    }

    fn to_bstr(&self) -> (r: Vec<u16>) {
        encode_utf16_z(self)
    }
}

/// Encodes `s` as UTF-16 and appends a terminating zero unit.
pub fn encode_utf16_z(s: &str) -> (r: Vec<u16>)
    ensures
        r@ == utf16_encode(s@).push(0),
{
    let n: usize = s.unicode_len();
    let mut r: Vec<u16> = Vec::new();
    let mut i: usize = 0;
    while i < n
        invariant
            n == s@.len(),
            i <= n,
            r@ == utf16_encode(s@.subrange(0, i as int)),
        decreases n - i,
    {
        let c = s.get_char(i);
        let v = c as u32;
        if v < 0x10000 {
            r.push(v as u16);
        } else {
            let d = v - 0x10000;
            assert(d / 0x400 <= 0x3FF) by (nonlinear_arith)
                requires
                    d <= 0xFFFFF,
            ;
            r.push((0xD800 + d / 0x400) as u16);
            r.push((0xDC00 + d % 0x400) as u16);
        }
        proof {
            assert(s@.subrange(0, i + 1).drop_last() =~= s@.subrange(0, i as int));
            assert(s@.subrange(0, i + 1).last() == c);
        }
        i = i + 1;
    }
    proof {
        assert(s@.subrange(0, n as int) =~= s@);
    }
    r.push(0);
    r
}

/// Text whose characters all lie below `0x10000` encodes to exactly one
/// UTF-16 unit per character, each unit carrying its character's value.
pub proof fn lemma_utf16_encode_bmp_len(s: Seq<char>)
    requires
        forall|i: int| 0 <= i < s.len() ==> ((#[trigger] s[i]) as u32) < 0x10000,
    ensures
        utf16_encode(s).len() == s.len(),
        forall|i: int| 0 <= i < s.len() ==> #[trigger] utf16_encode(s)[i] == (((s[i] as u32))
            as u16),
    decreases s.len(),
{
    if s.len() > 0 {
        assert(forall|i: int| 0 <= i < s.drop_last().len() ==> ((#[trigger] s.drop_last()[i]) as u32)
            < 0x10000);
        lemma_utf16_encode_bmp_len(s.drop_last());
        assert((s.last() as u32) < 0x10000);
        assert forall|i: int| 0 <= i < s.len() implies #[trigger] utf16_encode(s)[i] == (((s[i]
            as u32)) as u16) by {
            if i < s.len() - 1 {
                assert(utf16_encode(s)[i] == utf16_encode(s.drop_last())[i]);
                assert(s.drop_last()[i] == s[i]);
            } else {
                assert(utf16_encode(s)[i] == utf16_units(s.last())[0]);
            }
        }
    }
}

/// True when `suffix` is a suffix of `s`.
pub open spec fn spec_ends_with(s: Seq<char>, suffix: Seq<char>) -> bool {
    &&& suffix.len() <= s.len()
    &&& s.subrange(s.len() - suffix.len(), s.len() as int) == suffix
}

/// Character-wise suffix test.
pub fn str_ends_with(s: &str, suffix: &str) -> (r: bool)
    ensures
        r == spec_ends_with(s@, suffix@),
{
    let n: usize = s.unicode_len();
    let m: usize = suffix.unicode_len();
    if m > n {
        return false;
    }
    let mut i: usize = 0;
    while i < m
        invariant
            n == s@.len(),
            m == suffix@.len(),
            m <= n,
            i <= m,
            forall|j: int| 0 <= j < i ==> s@[n - m + j] == suffix@[j],
        decreases m - i,
    {
        if s.get_char(n - m + i) != suffix.get_char(i) {
            proof {
                if spec_ends_with(s@, suffix@) {
                    assert(s@.subrange(n - m, n as int)[i as int] == suffix@[i as int]);
                }
            }
            return false;
        }
        i = i + 1;
    }
    proof {
        assert(s@.subrange(n - m, n as int) =~= suffix@);
    }
    true
}

/// The replacement character standing in for ill-formed encoding.
pub const REPLACEMENT: char = '\u{FFFD}';

/// Position of the first zero unit, or the length when there is none;
/// wide strings from the boundary end at their first zero unit.
pub open spec fn spec_nul_index(units: Seq<u16>) -> int
    decreases units.len(),
{
    if units.len() == 0 {
        0
    } else if units[0] == 0 {
        0
    } else {
        1 + spec_nul_index(units.drop_first())
    }
}

/// The first zero unit is where `spec_nul_index` says: no earlier unit is
/// zero, and the unit there is zero unless the sequence has none.
pub proof fn lemma_nul_index(units: Seq<u16>)
    ensures
        0 <= spec_nul_index(units) <= units.len(),
        spec_nul_index(units) < units.len() ==> units[spec_nul_index(units)] == 0,
        forall|j: int| 0 <= j < spec_nul_index(units) ==> units[j] != 0,
    decreases units.len(),
{
    if units.len() > 0 && units[0] != 0 {
        lemma_nul_index(units.drop_first());
        assert forall|j: int| 0 <= j < spec_nul_index(units) implies units[j] != 0 by {
            if j > 0 {
                assert(units.drop_first()[j - 1] == units[j]);
            }
        }
    }
}

/// Decoding of UTF-16 code units: a high surrogate followed by a low
/// surrogate combines into one supplementary character, a lone surrogate
/// becomes the replacement character, and every other unit is the
/// character with its value.
pub open spec fn spec_utf16_decode(units: Seq<u16>) -> Seq<char>
    decreases units.len(),
{
    if units.len() == 0 {
        Seq::empty()
    } else {
        let u = units[0];
        if 0xD800 <= u < 0xDC00 {
            if units.len() >= 2 && 0xDC00 <= units[1] < 0xE000 {
                seq![(0x10000 + (u - 0xD800) * 0x400 + (units[1] - 0xDC00)) as char]
                    + spec_utf16_decode(units.skip(2))
            } else {
                seq![REPLACEMENT] + spec_utf16_decode(units.skip(1))
            }
        } else if 0xDC00 <= u < 0xE000 {
            seq![REPLACEMENT] + spec_utf16_decode(units.skip(1))
        } else {
            seq![u as char] + spec_utf16_decode(units.skip(1))
        }
    }
}

/// Relies on char::from_u32: the conversion succeeds exactly on Unicode
/// scalar values — everything up to 0x10FFFF except the surrogate range —
/// and returns the character with that value.
#[verifier::external_body]
fn char_from_u32(v: u32) -> (r: Option<char>)
    ensures
        r is Some <==> (v < 0xD800 || (0xE000 <= v && v <= 0x10FFFF)),
        r matches Some(c) ==> c == ((v as int) as char),
{
    char::from_u32(v)
}

/// Relies on String's FromIterator of characters: collecting characters
/// yields the string of exactly those characters, in order.
#[verifier::external_body]
fn chars_to_string(chars: &Vec<char>) -> (r: String)
    ensures
        r@ == chars@,
{
    chars.iter().collect()
}

/// Decodes a wide string fetched from the boundary: the units up to the
/// first zero unit, decoded as UTF-16 with lone surrogates replaced.
pub fn decode_utf16_z(units: &[u16]) -> (r: String)
    ensures
        r@ == spec_utf16_decode(units@.subrange(0, spec_nul_index(units@))),
{
    let n: usize = units.len();
    let mut k: usize = 0;
    while k < n && units[k] != 0
        invariant
            k <= n,
            n == units@.len(),
            forall|j: int| 0 <= j < k ==> units@[j] != 0,
        decreases n - k,
    {
        k = k + 1;
    }
    proof {
        lemma_nul_index(units@);
        let idx = spec_nul_index(units@);
        if idx < k {
            assert(units@[idx] != 0);
        }
        if idx > k {
            assert(k < units@.len());
            assert(units@[k as int] != 0);
        }
        assert(idx == k);
    }
    let ghost full = units@.subrange(0, k as int);
    let mut out: Vec<char> = Vec::new();
    let mut i: usize = 0;
    while i < k
        invariant
            i <= k,
            k <= n,
            n == units@.len(),
            k as int == spec_nul_index(units@),
            full == units@.subrange(0, k as int),
            spec_utf16_decode(full) == out@ + spec_utf16_decode(
                units@.subrange(i as int, k as int),
            ),
        decreases k - i,
    {
        let ghost rem = units@.subrange(i as int, k as int);
        proof {
            assert(rem.len() == k - i);
            assert(rem[0] == units@[i as int]);
        }
        let u = units[i];
        if 0xD800 <= u && u < 0xDC00 {
            let pair = if i + 1 < k {
                let u2 = units[i + 1];
                proof {
                    assert(rem[1] == units@[i + 1]);
                }
                if 0xDC00 <= u2 && u2 < 0xE000 {
                    Some(u2)
                } else {
                    None
                }
            } else {
                None
            };
            match pair {
                Some(u2) => {
                    let v: u32 = 0x10000 + ((u as u32) - 0xD800) * 0x400 + ((u2 as u32) - 0xDC00);
                    let c = match char_from_u32(v) {
                        Some(c) => c,
                        None => vstd::pervasive::unreached(),
                    };
                    proof {
                        assert(rem.skip(2) =~= units@.subrange(i + 2, k as int));
                        assert(v as int == 0x10000 + (rem[0] - 0xD800) * 0x400 + (rem[1]
                            - 0xDC00));
                        assert(c == ((0x10000 + (rem[0] - 0xD800) * 0x400 + (rem[1] - 0xDC00))
                            as char));
                        assert((out@ + seq![c]) + spec_utf16_decode(units@.subrange(i + 2, k as int))
                            =~= out@ + (seq![c] + spec_utf16_decode(
                            units@.subrange(i + 2, k as int),
                        )));
                    }
                    out.push(c);
                    i = i + 2;
                },
                None => {
                    proof {
                        assert(rem.skip(1) =~= units@.subrange(i + 1, k as int));
                        assert((out@ + seq![REPLACEMENT]) + spec_utf16_decode(
                            units@.subrange(i + 1, k as int),
                        ) =~= out@ + (seq![REPLACEMENT] + spec_utf16_decode(
                            units@.subrange(i + 1, k as int),
                        )));
                    }
                    out.push('\u{FFFD}');
                    i = i + 1;
                },
            }
        } else if 0xDC00 <= u && u < 0xE000 {
            proof {
                assert(rem.skip(1) =~= units@.subrange(i + 1, k as int));
                assert((out@ + seq![REPLACEMENT]) + spec_utf16_decode(
                    units@.subrange(i + 1, k as int),
                ) =~= out@ + (seq![REPLACEMENT] + spec_utf16_decode(
                    units@.subrange(i + 1, k as int),
                )));
            }
            out.push('\u{FFFD}');
            i = i + 1;
        } else {
            let c = match char_from_u32(u as u32) {
                Some(c) => c,
                None => vstd::pervasive::unreached(),
            };
            proof {
                assert(rem.skip(1) =~= units@.subrange(i + 1, k as int));
                assert((u as u32) as int == u as int);
                assert(c == (rem[0] as char));
                assert((out@ + seq![c]) + spec_utf16_decode(units@.subrange(i + 1, k as int))
                    =~= out@ + (seq![c] + spec_utf16_decode(units@.subrange(i + 1, k as int))));
            }
            out.push(c);
            i = i + 1;
        }
    }
    proof {
        assert(units@.subrange(k as int, k as int) =~= Seq::<u16>::empty());
        assert(out@ + Seq::<char>::empty() =~= out@);
    }
    chars_to_string(&out)
}

/// Character-wise string equality.
pub fn str_eq(a: &str, b: &str) -> (r: bool)
    ensures
        r == (a@ == b@),
{
    let n: usize = a.unicode_len();
    let m: usize = b.unicode_len();
    if n != m {
        return false;
    }
    let mut i: usize = 0;
    while i < n
        invariant
            n == a@.len(),
            n == b@.len(),
            i <= n,
            forall|j: int| 0 <= j < i ==> a@[j] == b@[j],
        decreases n - i,
    {
        if a.get_char(i) != b.get_char(i) {
            return false;
        }
        i = i + 1;
    }
    proof {
        assert(a@ =~= b@);
    }
    true
}

} // verus!
