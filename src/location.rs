use core::cmp::Ordering;
use vstd::prelude::*;

verus! {

/// Largest offset that a location can hold.
pub const MAX_OFFSET: usize = 4294967295;

/// Why a location could not be built from two offsets.
#[derive(Clone, Copy, Debug, PartialEq, Eq, Structural, PartialOrd, Ord)]
pub enum RangeError {
    /// The start offset lies after the end offset.
    StartAfterEnd,
    /// An offset does not fit the width of a stored offset.
    OffsetTooLarge,
}

/// A half-open range `[start, end)` of offsets into a source buffer.
#[derive(Clone, Copy, Debug, PartialEq, Eq, Structural, Ord)]
pub struct Location {
    start_pos: u32,
    end_pos: u32,
}

impl Location {
    #[verifier::type_invariant]
    spec fn well_formed(self) -> bool {
        self.start_pos <= self.end_pos
    }

    pub closed spec fn spec_start(&self) -> usize {
        self.start_pos as usize
    }

    pub closed spec fn spec_end(&self) -> usize {
        self.end_pos as usize
    }

    /// Builds the range `[s, e)`.
    pub fn new(s: usize, e: usize) -> (r: Result<Location, RangeError>)
        ensures
            r is Ok <==> s <= e && e <= MAX_OFFSET,
            r == Err::<Location, RangeError>(RangeError::StartAfterEnd) <==> s > e,
            r == Err::<Location, RangeError>(RangeError::OffsetTooLarge) <==> s <= e && e
                > MAX_OFFSET,
            r matches Ok(l) ==> l.start() == s && l.end() == e,
    {
        if s > e {
            Err(RangeError::StartAfterEnd)
        } else if e > MAX_OFFSET {
            Err(RangeError::OffsetTooLarge)
        } else {
            Ok(Location { start_pos: s as u32, end_pos: e as u32 })
        }
    }

    /// First offset of the range.
    #[verifier::when_used_as_spec(spec_start)]
    pub fn start(&self) -> (r: usize)
        ensures
            r == self.spec_start(),
            r <= self.spec_end(),
    {
        proof {
            use_type_invariant(self);
        }
        self.start_pos as usize
    }

    /// Offset just past the range.
    #[verifier::when_used_as_spec(spec_end)]
    pub fn end(&self) -> (r: usize)
        ensures
            r == self.spec_end(),
            self.spec_start() <= r,
            r <= MAX_OFFSET,
    {
        proof {
            use_type_invariant(self);
        }
        self.end_pos as usize
    }

    /// `self` comes strictly before `other` in position order.
    pub open spec fn precedes(self, other: Location) -> bool {
        self.order(other) == Ordering::Less
    }

    /// Text of the range for debugging: `( start: S end: E )`.
    pub open spec fn text(self) -> Seq<char> {
        "( start: "@ + decimal(self.start() as nat) + " end: "@ + decimal(self.end() as nat)
            + " )"@
    }

    /// Renders the range as `( start: S end: E )`, offsets in decimal.
    pub fn fmt(&self) -> (r: String)
        ensures
            r@ == self.text(),
    {
        let mut r = String::from_str("( start: ");
        push_decimal(&mut r, self.start_pos);
        r.append(" end: ");
        push_decimal(&mut r, self.end_pos);
        r.append(" )");
        r
    }

    /// Position order: by start offset, then by end offset.
    pub open spec fn order(self, other: Location) -> Ordering {
        if self.start() < other.start() {
            Ordering::Less
        } else if self.start() > other.start() {
            Ordering::Greater
        } else if self.end() < other.end() {
            Ordering::Less
        } else if self.end() > other.end() {
            Ordering::Greater
        } else {
            Ordering::Equal
        }
    }
}

/// Position order is a strict total order: two locations are either equal or
/// one strictly precedes the other, never two of these at once, the order
/// agrees with its converse, and preceding is transitive.
pub proof fn lemma_order_is_total(a: Location, b: Location, c: Location)
    ensures
        a.precedes(b) || a == b || b.precedes(a),
        !(a.precedes(b) && a == b),
        !(a == b && b.precedes(a)),
        !(a.precedes(b) && b.precedes(a)),
        a.order(b) == Ordering::Equal <==> a == b,
        a.order(b) == Ordering::Greater <==> b.precedes(a),
        a.precedes(b) && b.precedes(c) ==> a.precedes(c),
{
}

impl Default for Location {
    /// The empty range at offset zero.
    fn default() -> (r: Location)
        ensures
            r.start() == 0,
            r.end() == 0,
    {
        Location { start_pos: 0, end_pos: 0 }
    }
}

impl PartialOrd for Location {
    fn partial_cmp(&self, other: &Location) -> (r: Option<Ordering>)
        ensures
            r == Some(self.order(*other)),
    {
        if self.start_pos < other.start_pos {
            Some(Ordering::Less)
        } else if self.start_pos > other.start_pos {
            Some(Ordering::Greater)
        } else if self.end_pos < other.end_pos {
            Some(Ordering::Less)
        } else if self.end_pos > other.end_pos {
            Some(Ordering::Greater)
        } else {
            Some(Ordering::Equal)
        }
    }
}

impl vstd::std_specs::cmp::PartialOrdSpecImpl for Location {
    open spec fn obeys_partial_cmp_spec() -> bool {
        true
    }

    open spec fn partial_cmp_spec(&self, other: &Location) -> Option<Ordering> {
        Some(self.order(*other))
    }
}

/// The decimal digit for `d`, taken below ten.
pub open spec fn digit_char(d: nat) -> char {
    if d == 0 {
        '0'
    } else if d == 1 {
        '1'
    } else if d == 2 {
        '2'
    } else if d == 3 {
        '3'
    } else if d == 4 {
        '4'
    } else if d == 5 {
        '5'
    } else if d == 6 {
        '6'
    } else if d == 7 {
        '7'
    } else if d == 8 {
        '8'
    } else {
        '9'
    }
}

/// Decimal notation of `n`, without leading zeros.
pub open spec fn decimal(n: nat) -> Seq<char>
    decreases n,
{
    if n < 10 {
        seq![digit_char(n)]
    } else {
        decimal(n / 10) + seq![digit_char(n % 10)]
    }
}

fn digit_str(d: u32) -> (r: &'static str)
    requires
        d < 10,
    ensures
        r@ == seq![digit_char(d as nat)],
{
    proof {
        reveal_strlit("0");
        reveal_strlit("1");
        reveal_strlit("2");
        reveal_strlit("3");
        reveal_strlit("4");
        reveal_strlit("5");
        reveal_strlit("6");
        reveal_strlit("7");
        reveal_strlit("8");
        reveal_strlit("9");
    }
    if d == 0 {
        "0"
    } else if d == 1 {
        "1"
    } else if d == 2 {
        "2"
    } else if d == 3 {
        "3"
    } else if d == 4 {
        "4"
    } else if d == 5 {
        "5"
    } else if d == 6 {
        "6"
    } else if d == 7 {
        "7"
    } else if d == 8 {
        "8"
    } else {
        "9"
    }
}

fn push_decimal(out: &mut String, n: u32)
    ensures
        final(out)@ == old(out)@ + decimal(n as nat),
    decreases n,
{
    if n >= 10 {
        push_decimal(out, n / 10);
    }
    out.append(digit_str(n % 10));
    assert(out@ =~= old(out)@ + decimal(n as nat));
}

} // verus!
