use vstd::prelude::*;

verus! {

/// Number of sub-ticks in one tick: sub-tick precision is six decimal digits.
pub const SUB_TICKS_PER_TICK: u32 = 1000000;

/// A logical timestamp: `ticks + micro_ticks / 1_000_000` units.
///
/// Tick overflow wraps modulo 2^32, as `u32` arithmetic does; normalisation
/// always keeps `micro_ticks` below one tick.
#[derive(Ord, PartialOrd, PartialEq, Eq, Structural, Copy, Clone, Debug)]
pub struct Time {
    pub ticks: u32,
    pub micro_ticks: u32,
}

/// The value of a single decimal digit as a character.
pub open spec fn digit_char(d: nat) -> char {
    if d == 0 { '0' }
    else if d == 1 { '1' }
    else if d == 2 { '2' }
    else if d == 3 { '3' }
    else if d == 4 { '4' }
    else if d == 5 { '5' }
    else if d == 6 { '6' }
    else if d == 7 { '7' }
    else if d == 8 { '8' }
    else { '9' }
}

/// Decimal rendering of `n`, without leading zeros.
pub open spec fn decimal(n: nat) -> Seq<char>
    decreases n,
{
    if n < 10 {
        seq![digit_char(n)]
    } else {
        decimal(n / 10).push(digit_char(n % 10))
    }
}

/// The last `width` decimal digits of `n`, padded with leading zeros.
pub open spec fn padded(n: nat, width: nat) -> Seq<char>
    decreases width,
{
    if width == 0 {
        Seq::empty()
    } else {
        padded(n / 10, (width - 1) as nat).push(digit_char(n % 10))
    }
}

pub open spec fn pow10(k: nat) -> nat
    decreases k,
{
    if k == 0 { 1 } else { 10 * pow10((k - 1) as nat) }
}

/// The precision actually used: the requested one clamped to `[0, 6]`, six when none is given.
pub open spec fn effective_precision(precision: Option<usize>) -> nat {
    match precision {
        None => 6,
        Some(p) => if p > 6 { 6 } else { p as nat },
    }
}

/// Sum of two tick counts, wrapping modulo 2^32.
pub open spec fn wrap_ticks(a: int, b: int) -> u32 {
    ((a + b) % 0x1_0000_0000) as u32
}

impl Time {
    /// Sub-ticks stay below one tick.
    pub open spec fn wf(&self) -> bool {
        self.micro_ticks < SUB_TICKS_PER_TICK
    }

    /// The normalised form of the raw pair `(ticks, micro_ticks)`: whole ticks carried over.
    pub open spec fn normal(ticks: u32, micro_ticks: u32) -> Time {
        Time {
            ticks: wrap_ticks(ticks as int, micro_ticks as int / 1000000),
            micro_ticks: (micro_ticks % 1000000) as u32,
        }
    }

    /// `self` before `other`: lexicographic on `(ticks, micro_ticks)`.
    pub open spec fn before(self, other: Time) -> bool {
        self.ticks < other.ticks || (self.ticks == other.ticks && self.micro_ticks < other.micro_ticks)
    }

    pub open spec fn not_after(self, other: Time) -> bool {
        self.before(other) || self == other
    }

    /// Text of `self` at the given precision.
    pub open spec fn text(self, precision: Option<usize>) -> Seq<char> {
        let p = effective_precision(precision);
        if p == 0 {
            decimal(self.ticks as nat)
        } else {
            decimal(self.ticks as nat).push('.') + padded(
                self.micro_ticks as nat / pow10((6 - p) as nat),
                p,
            )
        }
    }

    /// Whether `self` comes strictly before `other`.
    pub fn is_before(&self, other: &Time) -> (r: bool)
        ensures
            r == self.before(*other),
    {
        self.ticks < other.ticks || (self.ticks == other.ticks && self.micro_ticks < other.micro_ticks)
    }

    pub fn new(ticks: u32, micro_ticks: u32) -> (r: Time)
        ensures
            r == Time::normal(ticks, micro_ticks),
            r.wf(),
    {
        let mut time = Time { ticks, micro_ticks };
        time.normalise();
        time
    }

    /// Carries whole ticks out of `micro_ticks`.
    pub fn normalise(&mut self)
        ensures
            *final(self) == Time::normal(old(self).ticks, old(self).micro_ticks),
            final(self).wf(),
    {
        self.ticks = self.ticks.wrapping_add(self.micro_ticks / SUB_TICKS_PER_TICK);
        self.micro_ticks = self.micro_ticks % SUB_TICKS_PER_TICK;
    }

    /// Component-wise sum of two normalised times, normalised again.
    pub open spec fn sum(self, rhs: Time) -> Time {
        Time::normal(
            wrap_ticks(self.ticks as int, rhs.ticks as int),
            ((self.micro_ticks % 1000000) + (rhs.micro_ticks % 1000000)) as u32,
        )
    }

    /// `self` moved on by whole ticks; the sub-tick part is unchanged.
    pub open spec fn plus_ticks(self, rhs: u32) -> Time {
        Time { ticks: wrap_ticks(self.ticks as int, rhs as int), ..self }
    }

    /// Component-wise sum, normalised.
    pub fn add_time(self, rhs: Time) -> (r: Time)
        ensures
            r == self.sum(rhs),
            r.wf(),
            self.wf() && rhs.wf() ==> r == Time::normal(
                wrap_ticks(self.ticks as int, rhs.ticks as int),
                (self.micro_ticks + rhs.micro_ticks) as u32,
            ),
    {
        Time::new(
            self.ticks.wrapping_add(rhs.ticks),
            (self.micro_ticks % SUB_TICKS_PER_TICK) + (rhs.micro_ticks % SUB_TICKS_PER_TICK),
        )
    }

    /// Adds whole ticks; the sub-tick part is unchanged.
    pub fn add_ticks(self, rhs: u32) -> (r: Time)
        ensures
            r == self.plus_ticks(rhs),
    {
        Time { ticks: self.ticks.wrapping_add(rhs), micro_ticks: self.micro_ticks }
    }

    /// Renders the tick count and, when the precision is above zero, a point and
    /// that many leading digits of the sub-tick part. The precision is clamped to
    /// `[0, 6]`; `None` means full precision.
    pub fn format(&self, precision: Option<usize>) -> (r: String)
        requires
            self.wf(),
        ensures
            r@ == self.text(precision),
    {
        let p: usize = match precision {
            None => 6,
            Some(p) => if p > 6 { 6 } else { p },
        };
        let mut out: Vec<char> = Vec::new();
        push_decimal(&mut out, self.ticks);
        if p > 0 {
            out.push('.');
            let mut divisor: u32 = 1;
            let mut k: usize = 0;
            while k < 6 - p
                invariant
                    p <= 6,
                    k <= 6 - p,
                    divisor == pow10(k as nat),
                    1 <= divisor <= 1000000,
                decreases 6 - p - k,
            {
                proof { lemma_pow10_bound((k + 1) as nat); }
                divisor = divisor * 10;
                k = k + 1;
            }
            push_padded(&mut out, self.micro_ticks / divisor, p);
        }
        chars_to_string(&out)
    }
}

proof fn lemma_pow10_bound(k: nat)
    requires
        k <= 6,
    ensures
        pow10(k) <= 1000000,
    decreases k,
{
    reveal_with_fuel(pow10, 7);
}

fn digit(d: u32) -> (c: char)
    requires
        d < 10,
    ensures
        c == digit_char(d as nat),
{
    match d {
        0 => '0',
        1 => '1',
        2 => '2',
        3 => '3',
        4 => '4',
        5 => '5',
        6 => '6',
        7 => '7',
        8 => '8',
        _ => '9',
    }
}

fn push_decimal(out: &mut Vec<char>, n: u32)
    ensures
        final(out)@ == old(out)@ + decimal(n as nat),
    decreases n,
{
    if n >= 10 {
        push_decimal(out, n / 10);
    }
    out.push(digit(n % 10));
}

fn push_padded(out: &mut Vec<char>, n: u32, width: usize)
    ensures
        final(out)@ == old(out)@ + padded(n as nat, width as nat),
    decreases width,
{
    if width > 0 {
        push_padded(out, n / 10, width - 1);
        out.push(digit(n % 10));
    }
}

/// Relies on `String`'s `FromIterator<char>`: the string holds the characters in order.
#[verifier::external_body]
fn chars_to_string(chars: &Vec<char>) -> (r: String)
    ensures
        r@ == chars@,
{
    chars.iter().collect()
}

impl Default for Time {
    fn default() -> (r: Time)
        ensures
            r == (Time { ticks: 0, micro_ticks: 0 }),
    {
        Time::new(0, 0)
    }
}

impl std::ops::Add for Time {
    type Output = Time;

    fn add(self, rhs: Time) -> Time {
        self.add_time(rhs)
    }
}

impl vstd::std_specs::ops::AddSpecImpl for Time {
    open spec fn obeys_add_spec() -> bool {
        true
    }

    open spec fn add_req(self, rhs: Time) -> bool {
        true
    }

    open spec fn add_spec(self, rhs: Time) -> Time {
        self.sum(rhs)
    }
}

impl std::ops::Add<u32> for Time {
    type Output = Time;

    fn add(self, rhs: u32) -> Time {
        self.add_ticks(rhs)
    }
}

impl vstd::std_specs::ops::AddSpecImpl<u32> for Time {
    open spec fn obeys_add_spec() -> bool {
        true
    }

    open spec fn add_req(self, rhs: u32) -> bool {
        true
    }

    open spec fn add_spec(self, rhs: u32) -> Time {
        self.plus_ticks(rhs)
    }
}

} // verus!
