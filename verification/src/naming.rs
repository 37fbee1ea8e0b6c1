//! Name mangling for the generated raw layer.
//!
//! The raw declarations for the native library are produced from its C
//! header. Two naming rules give the generated items their Rust names: a
//! SNAKE_CASE conversion for bitflag constants, and a rule that picks and
//! reshapes enum variant names. Both are plain functions on ASCII text and
//! are verified here against byte-level specifications.

use vstd::prelude::*;
use vstd::string::*;

verus! {

/// Underscore byte.
pub const UNDERSCORE: u8 = 95;

/// Bytes of the input with every occurrence of "NaN" replaced by "Nan",
/// scanning left to right without overlap.
pub open spec fn replace_nan(s: Seq<u8>) -> Seq<u8>
    decreases s.len(),
{
    if s.len() >= 3 && s[0] == 78 && s[1] == 97 && s[2] == 78 {
        seq![78u8, 97u8, 110u8] + replace_nan(s.skip(3))
    } else if s.len() == 0 {
        Seq::empty()
    } else {
        seq![s[0]] + replace_nan(s.skip(1))
    }
}

/// Whether a byte is an ASCII capital letter.
pub open spec fn is_upper_byte(c: u8) -> bool {
    65 <= c <= 90
}

/// The ASCII upper-case image of a byte: lower-case letters are shifted,
/// everything else is unchanged.
pub open spec fn upper_byte(c: u8) -> u8 {
    if 97 <= c <= 122 {
        (c - 32) as u8
    } else {
        c
    }
}

/// SNAKE_CASE image of a byte sequence: a capital letter keeps its case and,
/// except in the first position, gains an underscore before it; every other
/// byte is upper-cased. `first` says whether the next byte is in the first
/// position.
pub open spec fn snake_from(s: Seq<u8>, first: bool) -> Seq<u8>
    decreases s.len(),
{
    if s.len() == 0 {
        Seq::empty()
    } else {
        let head = if is_upper_byte(s[0]) {
            if first {
                seq![s[0]]
            } else {
                seq![UNDERSCORE, s[0]]
            }
        } else {
            seq![upper_byte(s[0])]
        };
        head + snake_from(s.skip(1), false)
    }
}

/// The full SNAKE_CASE conversion: the "NaN" fix-up, then the case rule.
pub open spec fn snake_case_bytes(s: Seq<u8>) -> Seq<u8> {
    snake_from(replace_nan(s), true)
}

/// All bytes of the sequence are ASCII.
pub open spec fn all_ascii_bytes(s: Seq<u8>) -> bool {
    forall|i: int| 0 <= i < s.len() ==> s[i] < 128
}

/// Relies on `String::from_utf8`: a sequence of ASCII bytes is valid UTF-8
/// and decodes to a string holding exactly those bytes, one ASCII character
/// per byte.
#[verifier::external_body]
fn string_from_ascii(v: Vec<u8>) -> (r: String)
    requires
        all_ascii_bytes(v@),
    ensures
        r.is_ascii(),
        r@.len() == v@.len(),
        forall|i: int| 0 <= i < v@.len() ==> r@[i] == v@[i] as char,
{
    String::from_utf8(v).unwrap()
}

/// Run the "NaN" fix-up over ASCII bytes.
fn replace_nan_exec(bytes: &[u8]) -> (out: Vec<u8>)
    requires
        all_ascii_bytes(bytes@),
    ensures
        out@ == replace_nan(bytes@),
        all_ascii_bytes(out@),
{
    let n: usize = bytes.len();
    let mut out: Vec<u8> = Vec::new();
    let mut i: usize = 0;
    proof {
        assert(bytes@.skip(0) =~= bytes@);
        assert(out@ + replace_nan(bytes@) =~= replace_nan(bytes@));
    }
    while i < n
        invariant
            n == bytes@.len(),
            i <= n,
            all_ascii_bytes(bytes@),
            all_ascii_bytes(out@),
            replace_nan(bytes@) == out@ + replace_nan(bytes@.skip(i as int)),
        decreases n - i,
    {
        if n - i > 2 && bytes[i] == 78 && bytes[i + 1] == 97 && bytes[i + 2] == 78 {
            proof {
                assert(bytes@.skip(i as int).skip(3) =~= bytes@.skip(i as int + 3));
                assert(out@ + seq![78u8, 97u8, 110u8] + replace_nan(bytes@.skip(i as int + 3))
                    =~= out@ + (seq![78u8, 97u8, 110u8] + replace_nan(bytes@.skip(i as int + 3))));
            }
            out.push(78);
            out.push(97);
            out.push(110);
            i = i + 3;
        } else {
            proof {
                assert(bytes@.skip(i as int).skip(1) =~= bytes@.skip(i as int + 1));
                assert(out@ + seq![bytes@[i as int]] + replace_nan(bytes@.skip(i as int + 1))
                    =~= out@ + (seq![bytes@[i as int]] + replace_nan(bytes@.skip(i as int + 1))));
            }
            let b: u8 = bytes[i];
            out.push(b);
            i = i + 1;
        }
    }
    proof {
        assert(bytes@.skip(n as int) =~= Seq::<u8>::empty());
        assert(out@ + Seq::<u8>::empty() =~= out@);
    }
    out
}

/// Run the SNAKE_CASE rule over ASCII bytes.
fn snake_exec(bytes: &Vec<u8>) -> (out: Vec<u8>)
    requires
        all_ascii_bytes(bytes@),
    ensures
        out@ == snake_from(bytes@, true),
        all_ascii_bytes(out@),
{
    let n: usize = bytes.len();
    let mut out: Vec<u8> = Vec::new();
    let mut i: usize = 0;
    proof {
        assert(bytes@.skip(0) =~= bytes@);
        assert(out@ + snake_from(bytes@, true) =~= snake_from(bytes@, true));
    }
    while i < n
        invariant
            n == bytes@.len(),
            i <= n,
            all_ascii_bytes(bytes@),
            all_ascii_bytes(out@),
            snake_from(bytes@, true) == out@ + snake_from(bytes@.skip(i as int), i == 0),
        decreases n - i,
    {
        let ghost head = if is_upper_byte(bytes@[i as int]) {
            if i == 0 {
                seq![bytes@[i as int]]
            } else {
                seq![UNDERSCORE, bytes@[i as int]]
            }
        } else {
            seq![upper_byte(bytes@[i as int])]
        };
        proof {
            assert(bytes@.skip(i as int).skip(1) =~= bytes@.skip(i as int + 1));
            assert(out@ + head + snake_from(bytes@.skip(i as int + 1), false)
                =~= out@ + (head + snake_from(bytes@.skip(i as int + 1), false)));
        }
        let b: u8 = bytes[i];
        if 65 <= b && b <= 90 {
            if i != 0 {
                out.push(UNDERSCORE);
            }
            out.push(b);
        } else if 97 <= b && b <= 122 {
            out.push(b - 32);
        } else {
            out.push(b);
        }
        i = i + 1;
    }
    proof {
        assert(bytes@.skip(n as int) =~= Seq::<u8>::empty());
        assert(out@ + Seq::<u8>::empty() =~= out@);
    }
    out
}

/// SNAKE_CASE core on raw bytes, shared by [`snake_case`] and the variant
/// naming rule.
fn snake_case_core(bytes: &[u8]) -> (out: Vec<u8>)
    requires
        all_ascii_bytes(bytes@),
    ensures
        out@ == snake_case_bytes(bytes@),
        all_ascii_bytes(out@),
{
    let replaced = replace_nan_exec(bytes);
    snake_exec(&replaced)
}

/// Convert an identifier to SNAKE_CASE, the shape used for generated bitflag
/// constants: "NaN" is first normalized to "Nan" so it reads as one word,
/// then capital letters become word breaks.
pub fn snake_case(name: &str) -> (r: String)
    requires
        name.is_ascii(),
    ensures
        r.is_ascii(),
        r@.len() == snake_case_bytes(name.spec_bytes()).len(),
        forall|i: int|
            0 <= i < r@.len() ==> r@[i] == snake_case_bytes(name.spec_bytes())[i] as char,
{
    proof {
        broadcast use vstd::string::is_ascii_spec_bytes;
        vstd::utf8::is_ascii_chars_nat_bound(name@);
    }
    let bytes: &[u8] = name.as_bytes();
    let out = snake_case_core(bytes);
    string_from_ascii(out)
}

/// The part of the sequence after its last underscore; the whole sequence
/// when it holds none. This is what taking the last piece of an
/// underscore-split yields.
pub open spec fn after_last_underscore(s: Seq<u8>) -> Seq<u8>
    decreases s.len(),
{
    if s.len() == 0 {
        Seq::empty()
    } else if s.last() == UNDERSCORE {
        Seq::empty()
    } else {
        after_last_underscore(s.drop_last()).push(s.last())
    }
}

/// The bytes of "ImPlot".
pub open spec fn im_plot_prefix() -> Seq<u8> {
    seq![73u8, 109u8, 80u8, 108u8, 111u8, 116u8]
}

/// The bytes of "ImAxis_".
pub open spec fn im_axis_name() -> Seq<u8> {
    seq![73u8, 109u8, 65u8, 120u8, 105u8, 115u8, 95u8]
}

/// The bytes of "Flags_".
pub open spec fn flags_suffix() -> Seq<u8> {
    seq![70u8, 108u8, 97u8, 103u8, 115u8, 95u8]
}

/// `p` is a prefix of `s`.
pub open spec fn seq_starts_with(s: Seq<u8>, p: Seq<u8>) -> bool {
    p.len() <= s.len() && s.take(p.len() as int) == p
}

/// `p` is a suffix of `s`.
pub open spec fn seq_ends_with(s: Seq<u8>, p: Seq<u8>) -> bool {
    p.len() <= s.len() && s.skip(s.len() - p.len()) == p
}

/// The variant-naming rule, on bytes. Only enums of the plotting library
/// (name starting with "ImPlot", or exactly "ImAxis_") are renamed: the text
/// after the last underscore of the variant is taken, and for bitflag enums
/// (name ending in "Flags_") it is converted to SNAKE_CASE.
pub open spec fn variant_name_bytes(enum_name: Seq<u8>, variant: Seq<u8>) -> Option<Seq<u8>> {
    if seq_starts_with(enum_name, im_plot_prefix()) || enum_name == im_axis_name() {
        let base = after_last_underscore(variant);
        if seq_ends_with(enum_name, flags_suffix()) {
            Some(snake_case_bytes(base))
        } else {
            Some(base)
        }
    } else {
        None
    }
}

proof fn lemma_alu_no_underscore(s: Seq<u8>)
    requires
        forall|i: int| 0 <= i < s.len() ==> s[i] != UNDERSCORE,
    ensures
        after_last_underscore(s) == s,
    decreases s.len(),
{
    if s.len() == 0 {
        assert(after_last_underscore(s) =~= s);
    } else {
        lemma_alu_no_underscore(s.drop_last());
        assert(after_last_underscore(s.drop_last()).push(s.last()) =~= s);
    }
}

proof fn lemma_alu_suffix(s: Seq<u8>, k: int)
    requires
        0 <= k < s.len(),
        s[k] == UNDERSCORE,
        forall|m: int| k < m < s.len() ==> s[m] != UNDERSCORE,
    ensures
        after_last_underscore(s) == s.skip(k + 1),
    decreases s.len(),
{
    if k == s.len() - 1 {
        assert(after_last_underscore(s) =~= s.skip(k + 1));
    } else {
        assert(s.last() != UNDERSCORE);
        lemma_alu_suffix(s.drop_last(), k);
        assert(after_last_underscore(s.drop_last()).push(s.last()) =~= s.skip(k + 1));
    }
}

/// Index just after the last underscore of the bytes, or 0 when there is
/// none: the start of the underscore-split tail.
fn find_suffix_start(bytes: &[u8]) -> (k: usize)
    ensures
        k <= bytes@.len(),
        bytes@.skip(k as int) == after_last_underscore(bytes@),
{
    let n: usize = bytes.len();
    let mut j: usize = n;
    while j > 0
        invariant
            j <= n,
            n == bytes@.len(),
            forall|m: int| j <= m < n ==> bytes@[m] != UNDERSCORE,
        decreases j,
    {
        if bytes[j - 1] == UNDERSCORE {
            proof {
                lemma_alu_suffix(bytes@, j - 1);
            }
            return j;
        }
        j = j - 1;
    }
    proof {
        lemma_alu_no_underscore(bytes@);
        assert(bytes@.skip(0) =~= bytes@);
    }
    0
}

/// Whether `p` is a prefix of `s`, byte for byte.
fn starts_with_bytes(s: &[u8], p: &[u8]) -> (r: bool)
    ensures
        r == seq_starts_with(s@, p@),
{
    let pn: usize = p.len();
    if pn > s.len() {
        return false;
    }
    let mut i: usize = 0;
    while i < pn
        invariant
            i <= pn,
            pn == p@.len(),
            pn <= s@.len(),
            forall|m: int| 0 <= m < i ==> s@[m] == p@[m],
        decreases pn - i,
    {
        if s[i] != p[i] {
            proof {
                assert(s@.take(pn as int)[i as int] == s@[i as int]);
            }
            return false;
        }
        i = i + 1;
    }
    proof {
        assert(s@.take(pn as int) =~= p@);
    }
    true
}

/// Whether `p` is a suffix of `s`, byte for byte.
fn ends_with_bytes(s: &[u8], p: &[u8]) -> (r: bool)
    ensures
        r == seq_ends_with(s@, p@),
{
    let pn: usize = p.len();
    let sn: usize = s.len();
    if pn > sn {
        return false;
    }
    let off: usize = sn - pn;
    let mut i: usize = 0;
    while i < pn
        invariant
            i <= pn,
            pn == p@.len(),
            sn == s@.len(),
            pn <= sn,
            off == sn - pn,
            forall|m: int| 0 <= m < i ==> s@[off + m] == p@[m],
        decreases pn - i,
    {
        if s[off + i] != p[i] {
            proof {
                assert(s@.skip(off as int)[i as int] == s@[off + i]);
            }
            return false;
        }
        i = i + 1;
    }
    proof {
        assert(s@.skip(off as int) =~= p@);
    }
    true
}

/// Whether the two byte sequences are equal.
fn bytes_eq(s: &[u8], p: &[u8]) -> (r: bool)
    ensures
        r == (s@ == p@),
{
    let pn: usize = p.len();
    if s.len() != pn {
        return false;
    }
    let mut i: usize = 0;
    while i < pn
        invariant
            i <= pn,
            pn == p@.len(),
            pn == s@.len(),
            forall|m: int| 0 <= m < i ==> s@[m] == p@[m],
        decreases pn - i,
    {
        if s[i] != p[i] {
            return false;
        }
        i = i + 1;
    }
    proof {
        assert(s@ =~= p@);
    }
    true
}

/// The bytes of "ImPlot", as a value the byte comparisons can take.
fn im_plot_prefix_vec() -> (v: Vec<u8>)
    ensures
        v@ =~= im_plot_prefix(),
{
    let mut v: Vec<u8> = Vec::new();
    v.push(73);
    v.push(109);
    v.push(80);
    v.push(108);
    v.push(111);
    v.push(116);
    v
}

/// The bytes of "ImAxis_".
fn im_axis_name_vec() -> (v: Vec<u8>)
    ensures
        v@ =~= im_axis_name(),
{
    let mut v: Vec<u8> = Vec::new();
    v.push(73);
    v.push(109);
    v.push(65);
    v.push(120);
    v.push(105);
    v.push(115);
    v.push(95);
    v
}

/// The bytes of "Flags_".
fn flags_suffix_vec() -> (v: Vec<u8>)
    ensures
        v@ =~= flags_suffix(),
{
    let mut v: Vec<u8> = Vec::new();
    v.push(70);
    v.push(108);
    v.push(97);
    v.push(103);
    v.push(115);
    v.push(95);
    v
}

/// The naming callbacks applied while generating the raw layer.
pub struct Callbacks;

impl Callbacks {
    /// Rename a C enum variant for the generated raw layer, by the rule of
    /// [`variant_name_bytes`]. `None` leaves the generator's default name in
    /// place.
    pub fn enum_variant_name(&self, enum_name: Option<&str>, original_variant_name: &str) -> (r:
        Option<String>)
        requires
            enum_name matches Some(n) ==> n.is_ascii(),
            original_variant_name.is_ascii(),
        ensures
            enum_name is None ==> r is None,
            enum_name matches Some(n) ==> {
                let expect = variant_name_bytes(
                    n.spec_bytes(),
                    original_variant_name.spec_bytes(),
                );
                &&& (r is Some <==> expect is Some)
                &&& (r matches Some(out) ==> expect matches Some(eb) && out.is_ascii()
                    && out@.len() == eb.len() && (forall|i: int|
                    0 <= i < eb.len() ==> out@[i] == eb[i] as char))
            },
    {
        let name: &str = match enum_name {
            Some(n) => n,
            None => {
                return None;
            },
        };
        proof {
            broadcast use vstd::string::is_ascii_spec_bytes;
            vstd::utf8::is_ascii_chars_nat_bound(name@);
            vstd::utf8::is_ascii_chars_nat_bound(original_variant_name@);
        }
        let nb: &[u8] = name.as_bytes();
        let vb: &[u8] = original_variant_name.as_bytes();
        let im_plot = im_plot_prefix_vec();
        let im_axis = im_axis_name_vec();
        let flags = flags_suffix_vec();
        if starts_with_bytes(nb, im_plot.as_slice()) || bytes_eq(nb, im_axis.as_slice()) {
            let k = find_suffix_start(vb);
            let base: &[u8] = vb.split_at(k).1;
            if ends_with_bytes(nb, flags.as_slice()) {
                let out = snake_case_core(base);
                Some(string_from_ascii(out))
            } else {
                let out = vstd::slice::slice_to_vec(base);
                Some(string_from_ascii(out))
            }
        } else {
            None
        }
    }
}

} // verus!
