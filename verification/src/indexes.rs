//! Derivation-path indexes: normal (unhardened) and hardened index types,
//! the tagged union over both, the common `DerivationIndex` capability they
//! implement, and the decimal grammar of their string forms.

use vstd::prelude::*;

verus! {

/// Boundary for raw `u32` derivation values: values below it are normal,
/// values at or above it are hardened (offset by the boundary).
pub const HARDENED_INDEX_BOUNDARY: u32 = 0x8000_0000;

// ---------------------------------------------------------------------------
// Errors

/// Error: an index was constructed from a value at or above
/// [`HARDENED_INDEX_BOUNDARY`] where the target type cannot hold it.
#[derive(Clone, Copy, PartialEq, Eq, PartialOrd, Ord, Hash, Structural, Debug)]
pub struct IndexOverflow(pub u32);

/// Error: a normal derivation index was met where a hardened index was
/// required.
#[derive(Clone, Copy, PartialEq, Eq, PartialOrd, Ord, Hash, Structural, Debug)]
pub struct HdnIdxExpected(pub NormIdx);

/// Error: a hardened derivation index was met where a normal (unhardened)
/// index was required.
#[derive(Clone, Copy, PartialEq, Eq, PartialOrd, Ord, Hash, Structural, Debug)]
pub struct NormIdxExpected(pub HdnIdx);

/// Error: an index of an unsupported kind was handed to a type implementing
/// [`DerivationIndex`].
#[derive(Clone, Copy, PartialEq, Eq, Structural, Debug)]
pub enum IndexUnsupported {
    /// Unhardened index met when hardened was expected.
    Unhardened(HdnIdxExpected),
    /// Hardened index met when unhardened was expected.
    Hardened(NormIdxExpected),
}

/// Errors parsing an index from a string.
#[derive(Clone, Copy, PartialEq, Eq, Structural, Debug)]
pub enum IndexParseError {
    /// The numeral is not a valid decimal `u32` integer.
    InvalidInt,
    /// The index value overflows [`HARDENED_INDEX_BOUNDARY`].
    Overflow(IndexOverflow),
    /// The index kind is not supported by the target type.
    Unsupported(IndexUnsupported),
}

// ---------------------------------------------------------------------------
// Decimal grammar shared by all index string forms

/// Whether `c` is a decimal digit.
pub open spec fn is_dec_digit(c: char) -> bool {
    48 <= c as u32 && c as u32 <= 57
}

/// Numeric value of a decimal digit character.
pub open spec fn dec_digit_val(c: char) -> int {
    c as u32 - 48
}

/// Digit character of a value below ten.
pub open spec fn dec_char_of(d: int) -> char {
    ((48 + d) as u8) as char
}

/// Canonical decimal representation of a non-negative integer, most
/// significant digit first, without leading zeros (except for zero itself).
pub open spec fn dec_rep(n: int) -> Seq<char>
    decreases n,
{
    if n < 10 {
        seq![dec_char_of(n)]
    } else {
        dec_rep(n / 10).push(dec_char_of(n % 10))
    }
}

/// Whether every character of `s` is a decimal digit.
pub open spec fn all_dec_digits(s: Seq<char>) -> bool {
    forall|i: int| 0 <= i < s.len() ==> is_dec_digit(#[trigger] s[i])
}

/// Whether `s` is a non-empty digit string.
pub open spec fn is_numeral(s: Seq<char>) -> bool {
    s.len() > 0 && all_dec_digits(s)
}

/// The numeral after an optional leading plus sign.
pub open spec fn numeral_body(s: Seq<char>) -> Seq<char> {
    if s.len() > 0 && s[0] == '+' {
        s.skip(1)
    } else {
        s
    }
}

/// Value of a digit string, most significant digit first.
pub open spec fn dec_val(s: Seq<char>) -> int
    decreases s.len(),
{
    if s.len() == 0 {
        0
    } else {
        dec_val(s.drop_last()) * 10 + dec_digit_val(s.last())
    }
}

/// What parsing a decimal `u32` from `s` yields: the grammar is an optional
/// `+` followed by one or more digits, and the value must fit in `u32`.
pub open spec fn parse_u32_spec(s: Seq<char>) -> Option<u32> {
    let b = numeral_body(s);
    if is_numeral(b) && dec_val(b) <= u32::MAX {
        Some(dec_val(b) as u32)
    } else {
        None
    }
}

/// Digit string of a value below ten.
fn dec_digit_str(d: u32) -> (r: &'static str)
    requires
        d < 10,
    ensures
        r@ =~= seq![dec_char_of(d as int)],
{
    proof {
        reveal_strlit("0");
        reveal_strlit("1");
        reveal_strlit("2");
        reveal_strlit("3");
        reveal_strlit("4");
        reveal_strlit("5");
        reveal_strlit("6");
        reveal_strlit("7");
        reveal_strlit("8");
        reveal_strlit("9");
    }
    match d {
        0 => "0",
        1 => "1",
        2 => "2",
        3 => "3",
        4 => "4",
        5 => "5",
        6 => "6",
        7 => "7",
        8 => "8",
        _ => "9",
    }
}

/// Renders `n` in decimal.
pub fn u32_to_dec(n: u32) -> (s: String)
    ensures
        s@ == dec_rep(n as int),
    decreases n,
{
    if n < 10 {
        dec_digit_str(n).to_owned()
    } else {
        let mut s = u32_to_dec(n / 10);
        s.append(dec_digit_str(n % 10));
        proof {
            assert(s@ == dec_rep(n as int / 10).push(dec_char_of(n as int % 10)));
        }
        s
    }
}

/// The characters of a string slice, one by one.
pub fn str_to_chars(s: &str) -> (v: Vec<char>)
    ensures
        v@ == s@,
{
    let n = s.unicode_len();
    let mut v: Vec<char> = Vec::new();
    let mut i: usize = 0;
    while i < n
        invariant
            i <= n,
            n == s@.len(),
            v@ =~= s@.subrange(0, i as int),
        decreases n - i,
    {
        v.push(s.get_char(i));
        i += 1;
    }
    proof {
        assert(v@ =~= s@);
    }
    v
}

/// Parses a decimal `u32` from the character range `[from, to)` of `v`,
/// accepting an optional leading plus sign.
pub fn parse_u32_chars(v: &Vec<char>, from: usize, to: usize) -> (r: Option<u32>)
    requires
        from <= to <= v@.len(),
    ensures
        r == parse_u32_spec(v@.subrange(from as int, to as int)),
{
    let ghost seg = v@.subrange(from as int, to as int);
    let start: usize = if to > from && v[from] == '+' {
        from + 1
    } else {
        from
    };
    if to == start {
        proof {
            if start == from + 1 {
                assert(numeral_body(seg) =~= seg.skip(1));
            }
        }
        return None;
    }
    let mut val: u32 = 0;
    let mut over = false;
    let mut i: usize = start;
    proof {
        assert(seg.subrange(start - from, start - from) =~= Seq::<char>::empty());
    }
    while i < to
        invariant
            from <= start <= i <= to <= v@.len(),
            start == from || start == from + 1,
            seg == v@.subrange(from as int, to as int),
            start == from + 1 ==> seg[0] == '+',
            start == from ==> (to > from ==> seg[0] != '+'),
            start < to,
            all_dec_digits(seg.subrange(start - from, i - from)),
            !over ==> val == dec_val(seg.subrange(start - from, i - from)),
            over ==> dec_val(seg.subrange(start - from, i - from)) > u32::MAX,
        decreases to - i,
    {
        let c = v[i];
        let cv = c as u32;
        proof {
            assert(seg[i - from] == v@[i as int]);
        }
        if cv < 48 || cv > 57 {
            proof {
                assert(!is_dec_digit(seg[i - from]));
                assert(numeral_body(seg) =~= seg.subrange(start - from, to - from));
                assert(seg.subrange(start - from, to - from)[i - start] == seg[i - from]);
                assert(!all_dec_digits(numeral_body(seg)));
            }
            return None;
        }
        let d = cv - 48;
        proof {
            let pre = seg.subrange(start - from, i - from);
            let post = seg.subrange(start - from, (i + 1) - from);
            assert(post.drop_last() =~= pre);
            assert(post.last() == seg[i - from]);
            assert(is_dec_digit(seg[i - from]));
            assert(dec_val(post) == dec_val(pre) * 10 + dec_digit_val(seg[i - from]));
            assert forall|j: int| 0 <= j < post.len() implies is_dec_digit(#[trigger] post[j]) by {
                if j < post.len() - 1 {
                    assert(post[j] == pre[j]);
                } else {
                    assert(post[j] == post.last());
                }
            }
        }
        if over {
        } else if val > 429_496_729 || (val == 429_496_729 && d > 5) {
            over = true;
        } else {
            val = val * 10 + d;
        }
        i += 1;
    }
    proof {
        assert(numeral_body(seg) =~= seg.subrange(start - from, to - from));
    }
    if over {
        None
    } else {
        Some(val)
    }
}

/// Parses a decimal `u32`, accepting an optional leading plus sign.
pub fn parse_u32_str(s: &str) -> (r: Option<u32>)
    ensures
        r == parse_u32_spec(s@),
{
    let v = str_to_chars(s);
    let r = parse_u32_chars(&v, 0, v.len());
    proof {
        assert(v@.subrange(0, v@.len() as int) =~= s@);
    }
    r
}

// ---------------------------------------------------------------------------
// The common capability of index types

/// Common capability of the types that may stand in a derivation path
/// segment: hardened, unhardened, or either.
pub trait DerivationIndex: Sized {
    /// The zero-based index value of the segment.
    spec fn index_spec(&self) -> u32;

    /// The raw wire value used during derivation: equal to the index value
    /// for normal indexes and offset by [`HARDENED_INDEX_BOUNDARY`] for
    /// hardened ones.
    spec fn raw_spec(&self) -> u32;

    /// Whether the segment is hardened.
    spec fn hardened_spec(&self) -> bool;

    /// Well-formedness: the zero-based value lies below the boundary.
    spec fn wf(&self) -> bool;

    /// The segment with index zero.
    fn zero() -> (r: Self)
        ensures
            r.wf(),
            r.index_spec() == 0,
    ;

    /// The segment with index one.
    fn one() -> (r: Self)
        ensures
            r.wf(),
            r.index_spec() == 1,
    ;

    /// The segment with the largest representable index.
    fn largest() -> (r: Self)
        ensures
            r.wf(),
            r.index_spec() == HARDENED_INDEX_BOUNDARY - 1,
    ;

    /// How many indexes the segment holds; always one for these types.
    fn count(&self) -> (r: usize)
        ensures
            r == 1usize,
    ;

    /// Membership test against the segment's single value.
    fn contains(&self, index: u32) -> (r: bool);

    /// Constructs a segment from a zero-based index value.
    fn from_index(index: u32) -> (r: Result<Self, IndexOverflow>);

    /// The zero-based value of the first (only) index of the segment.
    fn first_index(&self) -> (r: u32)
        ensures
            r == self.index_spec(),
    ;

    /// The zero-based value of the last index; equal to the first for these
    /// single-index segments.
    fn last_index(&self) -> (r: u32)
        ensures
            r == self.index_spec(),
    ;

    /// Constructs a segment from a raw wire value.
    fn from_raw_value(value: u32) -> (r: Result<Self, IndexUnsupported>);

    /// The raw wire value of the first (only) index of the segment.
    fn first_raw_value(&self) -> (r: u32)
        ensures
            r == self.raw_spec(),
    ;

    /// The raw wire value of the last index; equal to the first for these
    /// single-index segments.
    fn last_derivation_value(&self) -> (r: u32)
        ensures
            r == self.raw_spec(),
    ;

    /// Adds `add` to the index; `None` if the sum would reach the boundary,
    /// in which case the value is left unchanged.
    fn checked_add_assign(&mut self, add: u32) -> (r: Option<u32>)
        ensures
            old(self).index_spec() + add < HARDENED_INDEX_BOUNDARY ==> {
                &&& final(self).index_spec() == old(self).index_spec() + add
                &&& final(self).hardened_spec() == old(self).hardened_spec()
                &&& final(self).wf()
                &&& r == Some((old(self).index_spec() + add) as u32)
            },
            old(self).index_spec() + add >= HARDENED_INDEX_BOUNDARY ==> {
                &&& *final(self) == *old(self)
                &&& r is None
            },
    ;

    /// Subtracts `sub` from the index; `None` if the difference would fall
    /// below zero, in which case the value is left unchanged.
    fn checked_sub_assign(&mut self, sub: u32) -> (r: Option<u32>)
        ensures
            sub <= old(self).index_spec() ==> {
                &&& final(self).index_spec() == old(self).index_spec() - sub
                &&& final(self).hardened_spec() == old(self).hardened_spec()
                &&& final(self).wf()
                &&& r == Some((old(self).index_spec() - sub) as u32)
            },
            sub > old(self).index_spec() ==> {
                &&& *final(self) == *old(self)
                &&& r is None
            },
    ;

    /// The segment with `add` added to the index, or `None` past the
    /// boundary.
    fn checked_add(&self, add: u32) -> (r: Option<Self>)
        ensures
            self.index_spec() + add < HARDENED_INDEX_BOUNDARY ==> (r matches Some(n)
                && n.index_spec() == self.index_spec() + add && n.hardened_spec()
                == self.hardened_spec() && n.wf()),
            self.index_spec() + add >= HARDENED_INDEX_BOUNDARY ==> r is None,
    ;

    /// The segment with `sub` subtracted from the index, or `None` below
    /// zero.
    fn checked_sub(&self, sub: u32) -> (r: Option<Self>)
        ensures
            sub <= self.index_spec() ==> (r matches Some(n) && n.index_spec()
                == self.index_spec() - sub && n.hardened_spec() == self.hardened_spec()
                && n.wf()),
            sub > self.index_spec() ==> r is None,
    ;

    /// The next segment, or `None` at the boundary.
    fn checked_inc(&self) -> (r: Option<Self>)
        ensures
            self.index_spec() + 1 < HARDENED_INDEX_BOUNDARY ==> (r matches Some(n)
                && n.index_spec() == self.index_spec() + 1 && n.hardened_spec()
                == self.hardened_spec() && n.wf()),
            self.index_spec() + 1 >= HARDENED_INDEX_BOUNDARY ==> r is None,
    ;

    /// The previous segment, or `None` at zero.
    fn checked_dec(&self) -> (r: Option<Self>)
        ensures
            self.index_spec() >= 1 ==> (r matches Some(n) && n.index_spec()
                == self.index_spec() - 1 && n.hardened_spec() == self.hardened_spec()
                && n.wf()),
            self.index_spec() == 0 ==> r is None,
    ;

    /// Increases the index by one in place; `None` at the boundary.
    fn checked_inc_assign(&mut self) -> (r: Option<u32>)
        ensures
            old(self).index_spec() + 1 < HARDENED_INDEX_BOUNDARY ==> {
                &&& final(self).index_spec() == old(self).index_spec() + 1
                &&& final(self).hardened_spec() == old(self).hardened_spec()
                &&& final(self).wf()
                &&& r == Some((old(self).index_spec() + 1) as u32)
            },
            old(self).index_spec() + 1 >= HARDENED_INDEX_BOUNDARY ==> {
                &&& *final(self) == *old(self)
                &&& r is None
            },
    ;

    /// Decreases the index by one in place; `None` at zero.
    fn checked_dec_assign(&mut self) -> (r: Option<u32>)
        ensures
            old(self).index_spec() >= 1 ==> {
                &&& final(self).index_spec() == old(self).index_spec() - 1
                &&& final(self).hardened_spec() == old(self).hardened_spec()
                &&& final(self).wf()
                &&& r == Some((old(self).index_spec() - 1) as u32)
            },
            old(self).index_spec() == 0 ==> {
                &&& *final(self) == *old(self)
                &&& r is None
            },
    ;

    /// Whether the segment uses hardened indexes.
    fn is_hardened(&self) -> (r: bool)
        ensures
            r == self.hardened_spec(),
    ;
}

// ---------------------------------------------------------------------------
// NormIdx

/// Index for unhardened children derivation; the inner value is always
/// below [`HARDENED_INDEX_BOUNDARY`].
#[derive(Clone, Copy, PartialEq, Eq, PartialOrd, Ord, Hash, Structural, Debug)]
pub struct NormIdx(u32);

impl NormIdx {
    #[verifier::type_invariant]
    closed spec fn inv(self) -> bool {
        self.0 < HARDENED_INDEX_BOUNDARY
    }

    /// The zero-based value; equal to `index_spec` of the
    /// [`DerivationIndex`] capability.
    pub closed spec fn value_spec(self) -> u32 {
        self.0
    }
}

impl DerivationIndex for NormIdx {
    open spec fn index_spec(&self) -> u32 {
        self.value_spec()
    }

    open spec fn raw_spec(&self) -> u32 {
        self.index_spec()
    }

    open spec fn hardened_spec(&self) -> bool {
        false
    }

    open spec fn wf(&self) -> bool {
        self.index_spec() < HARDENED_INDEX_BOUNDARY
    }

    fn zero() -> (r: Self) {
        NormIdx(0)
    }

    fn one() -> (r: Self) {
        NormIdx(1)
    }

    fn largest() -> (r: Self) {
        NormIdx(HARDENED_INDEX_BOUNDARY - 1)
    }

    fn count(&self) -> (r: usize) {
        1
    }

    /// Compares against the zero-based (equally, raw) value.
    fn contains(&self, index: u32) -> (r: bool)
        ensures
            r == (index == self.index_spec()),
    {
        self.0 == index
    }

    /// Fails with `IndexOverflow` at or above the boundary.
    fn from_index(index: u32) -> (r: Result<Self, IndexOverflow>)
        ensures
            index < HARDENED_INDEX_BOUNDARY ==> (r matches Ok(n) && n.wf() && n.index_spec() == index),
            index >= HARDENED_INDEX_BOUNDARY ==> r == Err::<Self, IndexOverflow>(
                IndexOverflow(index),
            ),
    {
        if index >= HARDENED_INDEX_BOUNDARY {
            Err(IndexOverflow(index))
        } else {
            Ok(NormIdx(index))
        }
    }

    fn first_index(&self) -> (r: u32) {
        self.0
    }

    fn last_index(&self) -> (r: u32) {
        self.0
    }

    /// Fails on raw values at or above the boundary, reporting the hardened
    /// index those values stand for.
    fn from_raw_value(value: u32) -> (r: Result<Self, IndexUnsupported>)
        ensures
            value < HARDENED_INDEX_BOUNDARY ==> (r matches Ok(n) && n.wf() && n.index_spec() == value),
            value >= HARDENED_INDEX_BOUNDARY ==> (r matches Err(e) && e matches
                IndexUnsupported::Hardened(NormIdxExpected(h)) && h.value_spec() == value
                - HARDENED_INDEX_BOUNDARY),
    {
        if value < HARDENED_INDEX_BOUNDARY {
            Ok(NormIdx(value))
        } else {
            Err(IndexUnsupported::Hardened(NormIdxExpected(HdnIdx(value - HARDENED_INDEX_BOUNDARY))))
        }
    }

    fn first_raw_value(&self) -> (r: u32) {
        self.0
    }

    fn last_derivation_value(&self) -> (r: u32) {
        self.0
    }

    fn checked_add_assign(&mut self, add: u32) -> (r: Option<u32>) {
        proof {
            use_type_invariant(&*self);
        }
        match self.0.checked_add(add) {
            Some(sum) => {
                if sum < HARDENED_INDEX_BOUNDARY {
                    self.0 = sum;
                    Some(sum)
                } else {
                    None
                }
            },
            None => None,
        }
    }

    fn checked_sub_assign(&mut self, sub: u32) -> (r: Option<u32>) {
        proof {
            use_type_invariant(&*self);
        }
        match self.0.checked_sub(sub) {
            Some(diff) => {
                self.0 = diff;
                Some(diff)
            },
            None => None,
        }
    }

    fn checked_add(&self, add: u32) -> (r: Option<Self>) {
        let mut res = *self;
        match res.checked_add_assign(add) {
            Some(_) => Some(res),
            None => None,
        }
    }

    fn checked_sub(&self, sub: u32) -> (r: Option<Self>) {
        let mut res = *self;
        match res.checked_sub_assign(sub) {
            Some(_) => Some(res),
            None => None,
        }
    }

    fn checked_inc(&self) -> (r: Option<Self>) {
        self.checked_add(1)
    }

    fn checked_dec(&self) -> (r: Option<Self>) {
        self.checked_sub(1)
    }

    fn checked_inc_assign(&mut self) -> (r: Option<u32>) {
        self.checked_add_assign(1)
    }

    fn checked_dec_assign(&mut self) -> (r: Option<u32>) {
        self.checked_sub_assign(1)
    }

    fn is_hardened(&self) -> (r: bool) {
        false
    }
}

// ---------------------------------------------------------------------------
// HdnIdx

/// Index for hardened children derivation; the inner value is zero-based
/// (always below [`HARDENED_INDEX_BOUNDARY`]) and the raw wire value is the
/// inner value offset by the boundary.
#[derive(Clone, Copy, PartialEq, Eq, PartialOrd, Ord, Hash, Structural, Debug)]
pub struct HdnIdx(u32);

impl HdnIdx {
    #[verifier::type_invariant]
    closed spec fn inv(self) -> bool {
        self.0 < HARDENED_INDEX_BOUNDARY
    }

    /// The zero-based value; equal to `index_spec` of the
    /// [`DerivationIndex`] capability.
    pub closed spec fn value_spec(self) -> u32 {
        self.0
    }
}

impl DerivationIndex for HdnIdx {
    open spec fn index_spec(&self) -> u32 {
        self.value_spec()
    }

    open spec fn raw_spec(&self) -> u32 {
        (self.index_spec() + HARDENED_INDEX_BOUNDARY) as u32
    }

    open spec fn hardened_spec(&self) -> bool {
        true
    }

    open spec fn wf(&self) -> bool {
        self.index_spec() < HARDENED_INDEX_BOUNDARY
    }

    fn zero() -> (r: Self) {
        HdnIdx(0)
    }

    fn one() -> (r: Self) {
        HdnIdx(1)
    }

    fn largest() -> (r: Self) {
        HdnIdx(HARDENED_INDEX_BOUNDARY - 1)
    }

    fn count(&self) -> (r: usize) {
        1
    }

    /// Compares against the zero-based value.
    fn contains(&self, index: u32) -> (r: bool)
        ensures
            r == (index == self.index_spec()),
    {
        self.0 == index
    }

    /// Never fails: values at or above the boundary are reduced by it.
    fn from_index(index: u32) -> (r: Result<Self, IndexOverflow>)
        ensures
            index < HARDENED_INDEX_BOUNDARY ==> (r matches Ok(h) && h.wf() && h.index_spec() == index),
            index >= HARDENED_INDEX_BOUNDARY ==> (r matches Ok(h) && h.wf() && h.index_spec() == index
                - HARDENED_INDEX_BOUNDARY),
    {
        if index >= HARDENED_INDEX_BOUNDARY {
            Ok(HdnIdx(index - HARDENED_INDEX_BOUNDARY))
        } else {
            Ok(HdnIdx(index))
        }
    }

    fn first_index(&self) -> (r: u32) {
        self.0
    }

    fn last_index(&self) -> (r: u32) {
        self.0
    }

    /// Fails on raw values below the boundary, reporting the normal index
    /// those values stand for.
    fn from_raw_value(value: u32) -> (r: Result<Self, IndexUnsupported>)
        ensures
            value >= HARDENED_INDEX_BOUNDARY ==> (r matches Ok(h) && h.wf() && h.index_spec() == value
                - HARDENED_INDEX_BOUNDARY && h.raw_spec() == value),
            value < HARDENED_INDEX_BOUNDARY ==> (r matches Err(IndexUnsupported::Unhardened(
                HdnIdxExpected(n),
            )) && n.value_spec() == value),
    {
        if value < HARDENED_INDEX_BOUNDARY {
            Err(IndexUnsupported::Unhardened(HdnIdxExpected(NormIdx(value))))
        } else {
            Ok(HdnIdx(value - HARDENED_INDEX_BOUNDARY))
        }
    }

    fn first_raw_value(&self) -> (r: u32) {
        proof {
            use_type_invariant(&*self);
        }
        self.0 + HARDENED_INDEX_BOUNDARY
    }

    fn last_derivation_value(&self) -> (r: u32) {
        self.first_raw_value()
    }

    fn checked_add_assign(&mut self, add: u32) -> (r: Option<u32>) {
        proof {
            use_type_invariant(&*self);
        }
        match self.0.checked_add(add) {
            Some(sum) => {
                if sum < HARDENED_INDEX_BOUNDARY {
                    self.0 = sum;
                    Some(sum)
                } else {
                    None
                }
            },
            None => None,
        }
    }

    fn checked_sub_assign(&mut self, sub: u32) -> (r: Option<u32>) {
        proof {
            use_type_invariant(&*self);
        }
        match self.0.checked_sub(sub) {
            Some(diff) => {
                self.0 = diff;
                Some(diff)
            },
            None => None,
        }
    }

    fn checked_add(&self, add: u32) -> (r: Option<Self>) {
        let mut res = *self;
        match res.checked_add_assign(add) {
            Some(_) => Some(res),
            None => None,
        }
    }

    fn checked_sub(&self, sub: u32) -> (r: Option<Self>) {
        let mut res = *self;
        match res.checked_sub_assign(sub) {
            Some(_) => Some(res),
            None => None,
        }
    }

    fn checked_inc(&self) -> (r: Option<Self>) {
        self.checked_add(1)
    }

    fn checked_dec(&self) -> (r: Option<Self>) {
        self.checked_sub(1)
    }

    fn checked_inc_assign(&mut self) -> (r: Option<u32>) {
        self.checked_add_assign(1)
    }

    fn checked_dec_assign(&mut self) -> (r: Option<u32>) {
        self.checked_sub_assign(1)
    }

    fn is_hardened(&self) -> (r: bool) {
        true
    }
}

// ---------------------------------------------------------------------------
// ChildIdx

/// Derivation path segment that may hold either a normal or a hardened
/// index. The derived total order — variant tag first (normal before
/// hardened), then the zero-based value — is the canonical ordering for
/// path comparison.
#[derive(Clone, Copy, PartialEq, Eq, PartialOrd, Ord, Hash, Structural, Debug)]
pub enum ChildIdx {
    /// Segment defined by a single unhardened index.
    Normal(NormIdx),
    /// Segment defined by a hardened index.
    Hardened(HdnIdx),
}

impl ChildIdx {
    /// Constructs a hardened segment from a `u16` zero-based value.
    pub fn hardened_index(index: u16) -> (r: Self)
        ensures
            r.hardened_spec(),
            r.index_spec() == index,
    {
        ChildIdx::Hardened(HdnIdx(index as u32))
    }

    /// The normal index of the segment; fails on a hardened segment,
    /// reporting the hardened index that was met.
    pub fn try_into_normal(self) -> (r: Result<NormIdx, NormIdxExpected>)
        ensures
            !self.hardened_spec() ==> (r matches Ok(n) && self == ChildIdx::Normal(n)),
            self.hardened_spec() ==> (r matches Err(NormIdxExpected(h)) && self
                == ChildIdx::Hardened(h)),
    {
        match self {
            ChildIdx::Normal(n) => Ok(n),
            ChildIdx::Hardened(h) => Err(NormIdxExpected(h)),
        }
    }

    /// The hardened index of the segment; fails on a normal segment,
    /// reporting the unhardened index that was met.
    pub fn try_into_hardened(self) -> (r: Result<HdnIdx, HdnIdxExpected>)
        ensures
            self.hardened_spec() ==> (r matches Ok(h) && self == ChildIdx::Hardened(h)),
            !self.hardened_spec() ==> (r matches Err(HdnIdxExpected(n)) && self
                == ChildIdx::Normal(n)),
    {
        match self {
            ChildIdx::Normal(n) => Err(HdnIdxExpected(n)),
            ChildIdx::Hardened(h) => Ok(h),
        }
    }
}

impl DerivationIndex for ChildIdx {
    open spec fn index_spec(&self) -> u32 {
        match *self {
            ChildIdx::Normal(n) => n.index_spec(),
            ChildIdx::Hardened(h) => h.index_spec(),
        }
    }

    open spec fn raw_spec(&self) -> u32 {
        match *self {
            ChildIdx::Normal(n) => n.raw_spec(),
            ChildIdx::Hardened(h) => h.raw_spec(),
        }
    }

    open spec fn hardened_spec(&self) -> bool {
        self is Hardened
    }

    open spec fn wf(&self) -> bool {
        match *self {
            ChildIdx::Normal(n) => n.wf(),
            ChildIdx::Hardened(h) => h.wf(),
        }
    }

    /// The canonical zero of the account segment: hardened.
    fn zero() -> (r: Self)
        ensures
            r.hardened_spec(),
    {
        ChildIdx::Hardened(HdnIdx::zero())
    }

    /// The canonical one of the account segment: hardened.
    fn one() -> (r: Self)
        ensures
            r.hardened_spec(),
    {
        ChildIdx::Hardened(HdnIdx::one())
    }

    /// The canonical largest account segment: hardened.
    fn largest() -> (r: Self)
        ensures
            r.hardened_spec(),
    {
        ChildIdx::Hardened(HdnIdx::largest())
    }

    fn count(&self) -> (r: usize) {
        1
    }

    /// For a normal segment compares against the value itself; for a
    /// hardened one, the argument is lifted into the hardened range (the
    /// boundary bit set) and compared against the raw wire value, so both
    /// the zero-based and the raw form of the segment's value are members.
    fn contains(&self, index: u32) -> (r: bool)
        ensures
            *self matches ChildIdx::Normal(n) ==> r == (index == n.index_spec()),
            *self matches ChildIdx::Hardened(h) ==> r == ((index | HARDENED_INDEX_BOUNDARY)
                == h.raw_spec()),
    {
        match self {
            ChildIdx::Normal(n) => n.contains(index),
            ChildIdx::Hardened(h) => (index | HARDENED_INDEX_BOUNDARY) == h.first_raw_value(),
        }
    }

    /// Never fails: values at or above the boundary become hardened
    /// segments, reduced by the boundary.
    fn from_index(index: u32) -> (r: Result<Self, IndexOverflow>)
        ensures
            index < HARDENED_INDEX_BOUNDARY ==> (r matches Ok(c) && c.wf() && !c.hardened_spec()
                && c.index_spec() == index),
            index >= HARDENED_INDEX_BOUNDARY ==> (r matches Ok(c) && c.wf() && c.hardened_spec()
                && c.index_spec() == index - HARDENED_INDEX_BOUNDARY),
    {
        if index < HARDENED_INDEX_BOUNDARY {
            Ok(ChildIdx::Normal(NormIdx(index)))
        } else {
            Ok(ChildIdx::Hardened(HdnIdx(index - HARDENED_INDEX_BOUNDARY)))
        }
    }

    fn first_index(&self) -> (r: u32) {
        match self {
            ChildIdx::Normal(n) => n.first_index(),
            ChildIdx::Hardened(h) => h.first_index(),
        }
    }

    fn last_index(&self) -> (r: u32) {
        self.first_index()
    }

    /// Never fails: the matching variant is picked by the boundary.
    fn from_raw_value(value: u32) -> (r: Result<Self, IndexUnsupported>)
        ensures
            value < HARDENED_INDEX_BOUNDARY ==> (r matches Ok(c) && c.wf() && !c.hardened_spec()
                && c.index_spec() == value && c.raw_spec() == value),
            value >= HARDENED_INDEX_BOUNDARY ==> (r matches Ok(c) && c.wf() && c.hardened_spec()
                && c.index_spec() == value - HARDENED_INDEX_BOUNDARY && c.raw_spec() == value),
    {
        if value < HARDENED_INDEX_BOUNDARY {
            Ok(ChildIdx::Normal(NormIdx(value)))
        } else {
            Ok(ChildIdx::Hardened(HdnIdx(value - HARDENED_INDEX_BOUNDARY)))
        }
    }

    fn first_raw_value(&self) -> (r: u32) {
        match self {
            ChildIdx::Normal(n) => n.first_raw_value(),
            ChildIdx::Hardened(h) => h.first_raw_value(),
        }
    }

    fn last_derivation_value(&self) -> (r: u32) {
        self.first_raw_value()
    }

    fn checked_add_assign(&mut self, add: u32) -> (r: Option<u32>) {
        match self {
            ChildIdx::Normal(n) => n.checked_add_assign(add),
            ChildIdx::Hardened(h) => h.checked_add_assign(add),
        }
    }

    fn checked_sub_assign(&mut self, sub: u32) -> (r: Option<u32>) {
        match self {
            ChildIdx::Normal(n) => n.checked_sub_assign(sub),
            ChildIdx::Hardened(h) => h.checked_sub_assign(sub),
        }
    }

    fn checked_add(&self, add: u32) -> (r: Option<Self>) {
        let mut res = *self;
        match res.checked_add_assign(add) {
            Some(_) => Some(res),
            None => None,
        }
    }

    fn checked_sub(&self, sub: u32) -> (r: Option<Self>) {
        let mut res = *self;
        match res.checked_sub_assign(sub) {
            Some(_) => Some(res),
            None => None,
        }
    }

    fn checked_inc(&self) -> (r: Option<Self>) {
        self.checked_add(1)
    }

    fn checked_dec(&self) -> (r: Option<Self>) {
        self.checked_sub(1)
    }

    fn checked_inc_assign(&mut self) -> (r: Option<u32>) {
        self.checked_add_assign(1)
    }

    fn checked_dec_assign(&mut self) -> (r: Option<u32>) {
        self.checked_sub_assign(1)
    }

    fn is_hardened(&self) -> (r: bool) {
        match self {
            ChildIdx::Normal(_) => false,
            ChildIdx::Hardened(_) => true,
        }
    }
}

} // verus!


verus! {

// ---------------------------------------------------------------------------
// String forms

/// Whether the string carries one of the hardened suffixes `h`, `H`, `'`.
pub open spec fn has_hardened_suffix(s: Seq<char>) -> bool {
    s.len() > 0 && (s.last() == 'h' || s.last() == 'H' || s.last() == '\'')
}

/// Canonical rendering of a normal index: its decimal numeral.
pub open spec fn norm_render(n: NormIdx) -> Seq<char> {
    dec_rep(n.value_spec() as int)
}

/// Canonical rendering of a hardened index: the zero-based decimal numeral
/// followed by `h`.
pub open spec fn hdn_render(h: HdnIdx) -> Seq<char> {
    dec_rep(h.value_spec() as int).push('h')
}

/// Alternate rendering of a hardened index, with an apostrophe suffix.
pub open spec fn hdn_render_alt(h: HdnIdx) -> Seq<char> {
    dec_rep(h.value_spec() as int).push('\'')
}

/// Canonical rendering of a path segment.
pub open spec fn child_render(c: ChildIdx) -> Seq<char> {
    match c {
        ChildIdx::Normal(n) => norm_render(n),
        ChildIdx::Hardened(h) => hdn_render(h),
    }
}

/// Alternate rendering of a path segment, with an apostrophe on hardened
/// indexes.
pub open spec fn child_render_alt(c: ChildIdx) -> Seq<char> {
    match c {
        ChildIdx::Normal(n) => norm_render(n),
        ChildIdx::Hardened(h) => hdn_render_alt(h),
    }
}

impl NormIdx {
    /// Parses a normal index from its decimal form.
    pub fn from_str(s: &str) -> (r: Result<Self, IndexParseError>)
        ensures
            (match parse_u32_spec(s@) {
                Option::None => r == Err::<Self, IndexParseError>(IndexParseError::InvalidInt),
                Option::Some(v) => if v < HARDENED_INDEX_BOUNDARY {
                    r matches Ok(n) && n.value_spec() == v
                } else {
                    r == Err::<Self, IndexParseError>(
                        IndexParseError::Overflow(IndexOverflow(v)),
                    )
                },
            }),
    {
        match parse_u32_str(s) {
            None => Err(IndexParseError::InvalidInt),
            Some(v) => match Self::from_index(v) {
                Ok(n) => Ok(n),
                Err(e) => Err(IndexParseError::Overflow(e)),
            },
        }
    }

    /// Renders the index in decimal.
    pub fn to_string(&self) -> (r: String)
        ensures
            r@ == norm_render(*self),
    {
        u32_to_dec(self.first_index())
    }
}

impl HdnIdx {
    /// Parses a hardened index: a decimal zero-based numeral with one of the
    /// suffixes `h`, `H` or `'`. Without a suffix the numeral is reported as
    /// an unhardened index; a zero-based value at or above the boundary is
    /// an overflow.
    pub fn from_str(s: &str) -> (r: Result<Self, IndexParseError>)
        ensures
            has_hardened_suffix(s@) ==> (match parse_u32_spec(s@.drop_last()) {
                Option::None => r == Err::<Self, IndexParseError>(IndexParseError::InvalidInt),
                Option::Some(v) => if v < HARDENED_INDEX_BOUNDARY {
                    r matches Ok(h) && h.value_spec() == v
                } else {
                    r == Err::<Self, IndexParseError>(
                        IndexParseError::Overflow(IndexOverflow(v)),
                    )
                },
            }),
            !has_hardened_suffix(s@) ==> (match parse_u32_spec(s@) {
                Option::None => r == Err::<Self, IndexParseError>(IndexParseError::InvalidInt),
                Option::Some(v) => if v < HARDENED_INDEX_BOUNDARY {
                    r matches Err(IndexParseError::Unsupported(IndexUnsupported::Unhardened(
                        HdnIdxExpected(n),
                    ))) && n.value_spec() == v
                } else {
                    r == Err::<Self, IndexParseError>(
                        IndexParseError::Overflow(IndexOverflow(v)),
                    )
                },
            }),
    {
        let n = s.unicode_len();
        let suffixed = if n > 0 {
            let c = s.get_char(n - 1);
            c == 'h' || c == 'H' || c == '\''
        } else {
            false
        };
        if suffixed {
            let body = s.substring_char(0, n - 1);
            proof {
                assert(body@ =~= s@.drop_last());
            }
            match parse_u32_str(body) {
                None => Err(IndexParseError::InvalidInt),
                Some(v) => {
                    if v < HARDENED_INDEX_BOUNDARY {
                        Ok(HdnIdx(v))
                    } else {
                        Err(IndexParseError::Overflow(IndexOverflow(v)))
                    }
                },
            }
        } else {
            match NormIdx::from_str(s) {
                Ok(norm) => Err(
                    IndexParseError::Unsupported(IndexUnsupported::Unhardened(HdnIdxExpected(norm))),
                ),
                Err(e) => Err(e),
            }
        }
    }

    /// Renders the index as its zero-based numeral with the `h` suffix.
    pub fn to_string(&self) -> (r: String)
        ensures
            r@ == hdn_render(*self),
    {
        let mut s = u32_to_dec(self.first_index());
        s.append("h");
        proof {
            reveal_strlit("h");
            assert(s@ =~= hdn_render(*self));
        }
        s
    }

    /// Renders the index in the alternate form, with an apostrophe suffix.
    pub fn to_alt_string(&self) -> (r: String)
        ensures
            r@ == hdn_render_alt(*self),
    {
        let mut s = u32_to_dec(self.first_index());
        s.append("'");
        proof {
            reveal_strlit("'");
            assert(s@ =~= hdn_render_alt(*self));
        }
        s
    }
}

impl ChildIdx {
    /// Parses a path segment, dispatching on the presence of a hardened
    /// suffix.
    pub fn from_str(s: &str) -> (r: Result<Self, IndexParseError>)
        ensures
            has_hardened_suffix(s@) ==> (match parse_u32_spec(s@.drop_last()) {
                Option::None => r == Err::<Self, IndexParseError>(IndexParseError::InvalidInt),
                Option::Some(v) => if v < HARDENED_INDEX_BOUNDARY {
                    r matches Ok(c) && c.hardened_spec() && c.index_spec() == v
                } else {
                    r == Err::<Self, IndexParseError>(
                        IndexParseError::Overflow(IndexOverflow(v)),
                    )
                },
            }),
            !has_hardened_suffix(s@) ==> (match parse_u32_spec(s@) {
                Option::None => r == Err::<Self, IndexParseError>(IndexParseError::InvalidInt),
                Option::Some(v) => if v < HARDENED_INDEX_BOUNDARY {
                    r matches Ok(c) && !c.hardened_spec() && c.index_spec() == v
                } else {
                    r == Err::<Self, IndexParseError>(
                        IndexParseError::Overflow(IndexOverflow(v)),
                    )
                },
            }),
    {
        let n = s.unicode_len();
        let suffixed = if n > 0 {
            let c = s.get_char(n - 1);
            c == 'h' || c == 'H' || c == '\''
        } else {
            false
        };
        if suffixed {
            match HdnIdx::from_str(s) {
                Ok(h) => Ok(ChildIdx::Hardened(h)),
                Err(e) => Err(e),
            }
        } else {
            match NormIdx::from_str(s) {
                Ok(norm) => Ok(ChildIdx::Normal(norm)),
                Err(e) => Err(e),
            }
        }
    }

    /// Renders the segment: plain numeral for normal indexes, `h`-suffixed
    /// zero-based numeral for hardened ones.
    pub fn to_string(&self) -> (r: String)
        ensures
            r@ == child_render(*self),
    {
        match self {
            ChildIdx::Normal(n) => n.to_string(),
            ChildIdx::Hardened(h) => h.to_string(),
        }
    }

    /// Renders the segment in the alternate form, with an apostrophe on
    /// hardened indexes.
    pub fn to_alt_string(&self) -> (r: String)
        ensures
            r@ == child_render_alt(*self),
    {
        match self {
            ChildIdx::Normal(n) => n.to_string(),
            ChildIdx::Hardened(h) => h.to_alt_string(),
        }
    }
}

// ---------------------------------------------------------------------------
// Laws of the decimal grammar and the index string forms

/// The canonical decimal representation of a non-negative integer is a
/// non-empty digit string whose value is the integer itself.
pub proof fn lemma_dec_rep_value(n: int)
    requires
        n >= 0,
    ensures
        dec_rep(n).len() >= 1,
        all_dec_digits(dec_rep(n)),
        dec_val(dec_rep(n)) == n,
    decreases n,
{
    if n < 10 {
        assert(dec_rep(n) =~= seq![dec_char_of(n)]);
        assert(dec_char_of(n) as u32 == 48 + n);
        assert(dec_val(dec_rep(n)) == dec_val(dec_rep(n).drop_last()) * 10 + dec_digit_val(
            dec_rep(n).last(),
        ));
        assert(dec_rep(n).drop_last() =~= Seq::<char>::empty());
    } else {
        lemma_dec_rep_value(n / 10);
        vstd::arithmetic::div_mod::lemma_fundamental_div_mod(n, 10);
        let s = dec_rep(n);
        assert(s == dec_rep(n / 10).push(dec_char_of(n % 10)));
        assert(s.drop_last() =~= dec_rep(n / 10));
        assert(dec_char_of(n % 10) as u32 == 48 + n % 10);
        assert(dec_val(s) == (n / 10) * 10 + n % 10);
        assert forall|i: int| 0 <= i < s.len() implies is_dec_digit(#[trigger] s[i]) by {
            if i < s.len() - 1 {
                assert(s[i] == dec_rep(n / 10)[i]);
            } else {
                assert(s[i] == dec_char_of(n % 10));
            }
        }
    }
}

/// Parsing the canonical decimal representation of a `u32` yields the value
/// back.
pub proof fn lemma_dec_round_trip(v: u32)
    ensures
        parse_u32_spec(dec_rep(v as int)) == Some(v),
{
    lemma_dec_rep_value(v as int);
    let s = dec_rep(v as int);
    assert(is_dec_digit(s[0]));
    assert('+' as u32 == 43);
    assert(s[0] as u32 != 43);
    assert(numeral_body(s) == s);
}

/// A normal index round-trips through its string form, and its raw wire
/// value equals its zero-based value.
pub proof fn lemma_norm_index_round_trip(n: NormIdx)
    requires
        n.wf(),
    ensures
        parse_u32_spec(norm_render(n)) == Some(n.value_spec()),
        !has_hardened_suffix(norm_render(n)),
        n.raw_spec() == n.index_spec(),
{
    lemma_dec_round_trip(n.value_spec());
    lemma_dec_rep_value(n.value_spec() as int);
    let s = norm_render(n);
    assert(is_dec_digit(s.last()));
}

/// A hardened index round-trips through its string form: the rendering ends
/// with the `h` suffix and the numeral before it parses back to the
/// zero-based value.
pub proof fn lemma_hdn_index_round_trip(h: HdnIdx)
    requires
        h.wf(),
    ensures
        has_hardened_suffix(hdn_render(h)),
        parse_u32_spec(hdn_render(h).drop_last()) == Some(h.value_spec()),
        has_hardened_suffix(hdn_render_alt(h)),
        parse_u32_spec(hdn_render_alt(h).drop_last()) == Some(h.value_spec()),
        h.raw_spec() == h.index_spec() + HARDENED_INDEX_BOUNDARY,
{
    lemma_dec_round_trip(h.value_spec());
    assert(hdn_render(h).drop_last() =~= dec_rep(h.value_spec() as int));
    assert(hdn_render_alt(h).drop_last() =~= dec_rep(h.value_spec() as int));
}

/// A path segment round-trips through its canonical string form: the suffix
/// decides the variant and the numeral parses back to the zero-based value.
pub proof fn lemma_child_idx_round_trip(c: ChildIdx)
    requires
        c.wf(),
    ensures
        c.hardened_spec() ==> has_hardened_suffix(child_render(c)) && parse_u32_spec(
            child_render(c).drop_last(),
        ) == Some(c.index_spec()),
        !c.hardened_spec() ==> !has_hardened_suffix(child_render(c)) && parse_u32_spec(
            child_render(c),
        ) == Some(c.index_spec()),
{
    match c {
        ChildIdx::Normal(n) => lemma_norm_index_round_trip(n),
        ChildIdx::Hardened(h) => lemma_hdn_index_round_trip(h),
    }
}

/// Normal indexes with equal zero-based values are equal.
pub proof fn lemma_norm_idx_eq(a: NormIdx, b: NormIdx)
    requires
        a.value_spec() == b.value_spec(),
    ensures
        a == b,
{
}

/// Hardened indexes with equal zero-based values are equal.
pub proof fn lemma_hdn_idx_eq(a: HdnIdx, b: HdnIdx)
    requires
        a.value_spec() == b.value_spec(),
    ensures
        a == b,
{
}

/// Path segments with equal hardening and equal zero-based values are
/// equal.
pub proof fn lemma_child_idx_eq(a: ChildIdx, b: ChildIdx)
    requires
        a.hardened_spec() == b.hardened_spec(),
        a.index_spec() == b.index_spec(),
    ensures
        a == b,
{
    match (a, b) {
        (ChildIdx::Normal(x), ChildIdx::Normal(y)) => lemma_norm_idx_eq(x, y),
        (ChildIdx::Hardened(x), ChildIdx::Hardened(y)) => lemma_hdn_idx_eq(x, y),
        _ => {},
    }
}

} // verus!

verus! {

/// Whether the character range parses as a hardened index: a hardened
/// suffix after a numeral whose value stays below the boundary.
pub open spec fn hdn_parse_ok(s: Seq<char>) -> bool {
    has_hardened_suffix(s) && (parse_u32_spec(s.drop_last()) matches Some(v) && v
        < HARDENED_INDEX_BOUNDARY)
}

/// The zero-based value of a hardened index string; meaningful when
/// [`hdn_parse_ok`] holds.
pub open spec fn hdn_parse_val(s: Seq<char>) -> u32 {
    parse_u32_spec(s.drop_last()).unwrap()
}

/// Parses a hardened index from the character range `[from, to)` of `v`;
/// `None` on any malformed input.
pub fn hdn_from_chars(v: &Vec<char>, from: usize, to: usize) -> (r: Option<HdnIdx>)
    requires
        from <= to <= v@.len(),
    ensures
        hdn_parse_ok(v@.subrange(from as int, to as int)) ==> (r matches Some(h) && h.value_spec()
            == hdn_parse_val(v@.subrange(from as int, to as int))),
        !hdn_parse_ok(v@.subrange(from as int, to as int)) ==> r is None,
{
    let ghost seg = v@.subrange(from as int, to as int);
    if to == from {
        return None;
    }
    let c = v[to - 1];
    proof {
        assert(seg.last() == v@[to - 1]);
    }
    if !(c == 'h' || c == 'H' || c == '\'') {
        return None;
    }
    proof {
        assert(seg.drop_last() =~= v@.subrange(from as int, to - 1));
    }
    match parse_u32_chars(v, from, to - 1) {
        None => None,
        Some(x) => {
            if x < HARDENED_INDEX_BOUNDARY {
                Some(HdnIdx(x))
            } else {
                None
            }
        },
    }
}

/// Builds a string from the character range `[from, to)` of `v`.
pub fn chars_to_string(v: &Vec<char>, from: usize, to: usize) -> (r: String)
    requires
        from <= to <= v@.len(),
    ensures
        r@ == v@.subrange(from as int, to as int),
{
    let mut r = String::new();
    let mut i: usize = from;
    while i < to
        invariant
            from <= i <= to <= v@.len(),
            r@ =~= v@.subrange(from as int, i as int),
        decreases to - i,
    {
        crate::ext::push_char(&mut r, v[i]);
        proof {
            assert(v@.subrange(from as int, (i + 1) as int) =~= v@.subrange(
                from as int,
                i as int,
            ).push(v@[i as int]));
        }
        i += 1;
    }
    proof {
        assert(r@ =~= v@.subrange(from as int, to as int));
    }
    r
}

} // verus!
