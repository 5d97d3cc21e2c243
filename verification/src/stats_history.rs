use std::collections::VecDeque;
use vstd::prelude::*;
use vstd::string::StringExecFns;

verus! {

/// How many samples each rolling history keeps.
pub const HISTORY_LEN: usize = 30;

/// One push into a capped ring: once the ring holds `HISTORY_LEN` values the
/// oldest one leaves before the new one enters at the back.
pub open spec fn ring_push<T>(ring: Seq<T>, val: T) -> Seq<T> {
    if ring.len() >= HISTORY_LEN {
        ring.drop_first().push(val)
    } else {
        ring.push(val)
    }
}

/// The ring obtained by pushing every value of `vals`, in order, onto `ring`.
pub open spec fn ring_push_all<T>(ring: Seq<T>, vals: Seq<T>) -> Seq<T>
    decreases vals.len(),
{
    if vals.len() == 0 {
        ring
    } else {
        ring_push(ring_push_all(ring, vals.drop_last()), vals.last())
    }
}

/// The last `n` values of `vals` (all of them when there are fewer).
pub open spec fn last_values<T>(vals: Seq<T>, n: nat) -> Seq<T> {
    if vals.len() <= n {
        vals
    } else {
        vals.subrange(vals.len() - n, vals.len() as int)
    }
}

/// Rolling history of stats values, one capped ring per metric.
///
/// The element type is the sample type chosen by the caller (the panel uses
/// percentages as `f32`).
pub struct StatsHistory<T> {
    cpu: VecDeque<T>,
    gpu: VecDeque<T>,
    mem: VecDeque<T>,
    tick_count: usize,
}

impl<T> StatsHistory<T> {
    #[verifier::type_invariant]
    spec fn rings_are_capped(self) -> bool {
        &&& self.cpu@.len() <= HISTORY_LEN
        &&& self.gpu@.len() <= HISTORY_LEN
        &&& self.mem@.len() <= HISTORY_LEN
    }

    /// The CPU samples currently kept, oldest first.
    pub closed spec fn cpu_values(self) -> Seq<T> {
        self.cpu@
    }

    /// The GPU samples currently kept, oldest first.
    pub closed spec fn gpu_values(self) -> Seq<T> {
        self.gpu@
    }

    /// The memory samples currently kept, oldest first.
    pub closed spec fn mem_values(self) -> Seq<T> {
        self.mem@
    }

    /// How many times `push` has been called.
    pub closed spec fn ticks(self) -> nat {
        self.tick_count as nat
    }

    pub fn new() -> (h: Self)
        ensures
            h.cpu_values() == Seq::<T>::empty(),
            h.gpu_values() == Seq::<T>::empty(),
            h.mem_values() == Seq::<T>::empty(),
            h.ticks() == 0,
    {
        StatsHistory {
            cpu: VecDeque::with_capacity(HISTORY_LEN),
            gpu: VecDeque::with_capacity(HISTORY_LEN),
            mem: VecDeque::with_capacity(HISTORY_LEN),
            tick_count: 0,
        }
    }

    /// Push new percentage values (0–100) into the ring buffers.
    pub fn push(&mut self, cpu_pct: T, gpu_pct: T, mem_pct: T)
        requires
            old(self).ticks() < usize::MAX,
        ensures
            final(self).cpu_values() == ring_push(old(self).cpu_values(), cpu_pct),
            final(self).gpu_values() == ring_push(old(self).gpu_values(), gpu_pct),
            final(self).mem_values() == ring_push(old(self).mem_values(), mem_pct),
            final(self).ticks() == old(self).ticks() + 1,
            final(self).cpu_values().len() <= HISTORY_LEN,
            final(self).gpu_values().len() <= HISTORY_LEN,
            final(self).mem_values().len() <= HISTORY_LEN,
    {
        proof {
            use_type_invariant(&*self);
        }
        // Each ring is moved out (leaving an empty one, which keeps the
        // cap), extended, and moved back.
        let mut ring: VecDeque<T> = VecDeque::new();
        std::mem::swap(&mut ring, &mut self.cpu);
        push_ring(&mut ring, cpu_pct);
        std::mem::swap(&mut ring, &mut self.cpu);

        let mut ring: VecDeque<T> = VecDeque::new();
        std::mem::swap(&mut ring, &mut self.gpu);
        push_ring(&mut ring, gpu_pct);
        std::mem::swap(&mut ring, &mut self.gpu);

        let mut ring: VecDeque<T> = VecDeque::new();
        std::mem::swap(&mut ring, &mut self.mem);
        push_ring(&mut ring, mem_pct);
        std::mem::swap(&mut ring, &mut self.mem);

        self.tick_count = self.tick_count + 1;
    }

    pub fn tick_count(&self) -> (n: usize)
        ensures
            n == self.ticks(),
    {
        self.tick_count
    }
}

impl<T: Copy> StatsHistory<T> {
    pub fn cpu_history(&self) -> (v: Vec<T>)
        ensures
            v@ == self.cpu_values(),
            v@.len() <= HISTORY_LEN,
    {
        proof {
            use_type_invariant(self);
        }
        ring_to_vec(&self.cpu)
    }

    pub fn gpu_history(&self) -> (v: Vec<T>)
        ensures
            v@ == self.gpu_values(),
            v@.len() <= HISTORY_LEN,
    {
        proof {
            use_type_invariant(self);
        }
        ring_to_vec(&self.gpu)
    }

    pub fn mem_history(&self) -> (v: Vec<T>)
        ensures
            v@ == self.mem_values(),
            v@.len() <= HISTORY_LEN,
    {
        proof {
            use_type_invariant(self);
        }
        ring_to_vec(&self.mem)
    }
}

fn push_ring<T>(buf: &mut VecDeque<T>, val: T)
    requires
        old(buf)@.len() <= HISTORY_LEN,
    ensures
        final(buf)@ == ring_push(old(buf)@, val),
        final(buf)@.len() <= HISTORY_LEN,
{
    if buf.len() >= HISTORY_LEN {
        let _ = buf.pop_front();
    }
    buf.push_back(val);
}

fn ring_to_vec<T: Copy>(buf: &VecDeque<T>) -> (v: Vec<T>)
    ensures
        v@ == buf@,
{
    let mut v: Vec<T> = Vec::new();
    let n = buf.len();
    let mut i: usize = 0;
    while i < n
        invariant
            n == buf@.len(),
            i <= n,
            v@ == buf@.subrange(0, i as int),
        decreases n - i,
    {
        let x: T = buf[i];
        v.push(x);
        i = i + 1;
        assert(v@ == buf@.subrange(0, i as int));
    }
    v
}

/// Pushing onto a ring that holds the last `HISTORY_LEN` values of a stream
/// gives the last `HISTORY_LEN` values of the stream extended by the pushed value.
pub proof fn lemma_push_keeps_last_values<T>(vals: Seq<T>, val: T)
    ensures
        ring_push(last_values(vals, HISTORY_LEN as nat), val)
            == last_values(vals.push(val), HISTORY_LEN as nat),
{
    let n = HISTORY_LEN as nat;
    let lhs = ring_push(last_values(vals, n), val);
    let rhs = last_values(vals.push(val), n);
    if vals.len() < n {
        assert(lhs =~= rhs);
    } else {
        assert(lhs =~= rhs);
    }
}

/// A history is always the last `HISTORY_LEN` values pushed into it: starting
/// from an empty ring, pushing the values of `vals` one by one leaves exactly
/// the last `HISTORY_LEN` of them, oldest first.
pub proof fn lemma_history_is_last_values<T>(vals: Seq<T>)
    ensures
        ring_push_all(Seq::<T>::empty(), vals) == last_values(vals, HISTORY_LEN as nat),
    decreases vals.len(),
{
    if vals.len() == 0 {
        assert(last_values(vals, HISTORY_LEN as nat) =~= Seq::<T>::empty());
    } else {
        let init = vals.drop_last();
        lemma_history_is_last_values(init);
        lemma_push_keeps_last_values(init, vals.last());
        assert(init.push(vals.last()) =~= vals);
    }
}

} // verus!

verus! {

/// The decimal digit character for `d` (0–9).
pub open spec fn digit_char(d: nat) -> char {
    (48 + d) as char
}

/// The decimal representation of `n`, without leading zeros.
pub open spec fn decimal(n: nat) -> Seq<char>
    decreases n,
{
    if n < 10 {
        seq![digit_char(n)]
    } else {
        decimal(n / 10).push(digit_char(n % 10))
    }
}

/// `n` in decimal, zero-padded to at least two digits (as `{:02}` formats it).
pub open spec fn two_digits(n: nat) -> Seq<char> {
    if n < 10 {
        seq!['0', digit_char(n)]
    } else {
        decimal(n)
    }
}

/// The clock text for a time of day: hours and minutes, each zero-padded to
/// two digits, separated by a colon.
pub open spec fn clock_text_of(hour: nat, minute: nat) -> Seq<char> {
    two_digits(hour) + seq![':'] + two_digits(minute)
}

fn digit_str(d: u32) -> (s: &'static str)
    requires
        d < 10,
    ensures
        s@ == seq![digit_char(d as nat)],
{
    proof {
        reveal_strlit("0");
        reveal_strlit("1");
        reveal_strlit("2");
        reveal_strlit("3");
        reveal_strlit("4");
        reveal_strlit("5");
        reveal_strlit("6");
        reveal_strlit("7");
        reveal_strlit("8");
        reveal_strlit("9");
    }
    match d {
        0 => "0",
        1 => "1",
        2 => "2",
        3 => "3",
        4 => "4",
        5 => "5",
        6 => "6",
        7 => "7",
        8 => "8",
        _ => "9",
    }
}

fn append_decimal(s: &mut String, n: u32)
    ensures
        final(s)@ == old(s)@ + decimal(n as nat),
    decreases n,
{
    if n >= 10 {
        append_decimal(s, n / 10);
    }
    s.append(digit_str(n % 10));
    assert(final(s)@ =~= old(s)@ + decimal(n as nat)) by {
        if n >= 10 {
            assert(decimal(n as nat) == decimal((n / 10) as nat).push(digit_char((n % 10) as nat)));
        }
    }
}

fn append_two_digits(s: &mut String, n: u32)
    ensures
        final(s)@ == old(s)@ + two_digits(n as nat),
{
    if n < 10 {
        proof {
            reveal_strlit("0");
        }
        s.append("0");
    }
    append_decimal(s, n);
    assert(final(s)@ =~= old(s)@ + two_digits(n as nat));
}

/// Format a local time of day as "HH:MM".
pub fn clock_text_from(hour: u32, minute: u32) -> (t: String)
    ensures
        t@ == clock_text_of(hour as nat, minute as nat),
{
    let mut t = String::new();
    append_two_digits(&mut t, hour);
    proof {
        reveal_strlit(":");
    }
    t.append(":");
    append_two_digits(&mut t, minute);
    assert(t@ =~= clock_text_of(hour as nat, minute as nat));
    t
}

/// A time of day gives exactly five characters with the colon in the middle.
pub proof fn lemma_clock_text_shape(hour: nat, minute: nat)
    requires
        hour < 24,
        minute < 60,
    ensures
        clock_text_of(hour, minute).len() == 5,
        clock_text_of(hour, minute)[2] == ':',
{
    assert(decimal(hour / 10).len() == 1);
    assert(decimal(minute / 10).len() == 1);
}

} // verus!

verus! {

/// The number a string of decimal digit characters spells, reading each
/// character by its distance from `'0'`.
pub open spec fn digits_value(s: Seq<char>) -> int
    decreases s.len(),
{
    if s.len() == 0 {
        0
    } else {
        digits_value(s.drop_last()) * 10 + ((s.last() as u32) - 48)
    }
}

/// Every character of `s` is one of `'0'..='9'`.
pub open spec fn all_ascii_digits(s: Seq<char>) -> bool {
    forall|i: int| 0 <= i < s.len() ==> '0' <= #[trigger] s[i] <= '9'
}

/// The decimal text of `n` is made of digit characters and reads back as
/// `n`, without a leading zero.
pub proof fn lemma_decimal_reads_back(n: nat)
    ensures
        decimal(n).len() >= 1,
        all_ascii_digits(decimal(n)),
        digits_value(decimal(n)) == n,
        n > 0 ==> decimal(n)[0] != '0',
    decreases n,
{
    if n >= 10 {
        lemma_decimal_reads_back(n / 10);
        let d = decimal(n);
        assert(d.drop_last() =~= decimal(n / 10));
        assert(((48 + n % 10) as char) as u32 == 48 + n % 10);
        assert(n == (n / 10) * 10 + n % 10);
        assert(d.last() == digit_char(n % 10));
        assert(digits_value(d) == digits_value(d.drop_last()) * 10 + ((d.last() as u32) - 48));
    } else {
        assert(((48 + n) as char) as u32 == 48 + n);
        let d = decimal(n);
        assert(d.drop_last() =~= Seq::<char>::empty());
        assert(digits_value(d) == digits_value(d.drop_last()) * 10 + ((d.last() as u32) - 48));
    }
}

/// The zero-padded text of `n` has at least two digit characters and reads
/// back as `n`.
pub proof fn lemma_two_digits_reads_back(n: nat)
    ensures
        two_digits(n).len() >= 2,
        all_ascii_digits(two_digits(n)),
        digits_value(two_digits(n)) == n,
{
    lemma_decimal_reads_back(n);
    if n < 10 {
        let t = two_digits(n);
        assert(((48 + n) as char) as u32 == 48 + n);
        assert(t.drop_last() =~= seq!['0']);
        assert(seq!['0'].drop_last() =~= Seq::<char>::empty());
        assert(('0' as u32) == 48);
        assert(digits_value(seq!['0']) == digits_value(seq!['0'].drop_last()) * 10 + (('0' as u32) - 48));
        assert(digits_value(seq!['0']) == 0);
        assert(digits_value(t) == digits_value(t.drop_last()) * 10 + ((t.last() as u32) - 48));
    } else {
        assert(decimal(n).len() >= 2) by {
            assert(decimal(n) == decimal(n / 10).push(digit_char(n % 10)));
            lemma_decimal_reads_back(n / 10);
        }
    }
}

/// For a time with hour and minute below 100, the clock text is five
/// characters: two digits that read back as the hour, a colon, and two
/// digits that read back as the minute.
pub proof fn lemma_clock_text_fields(hour: nat, minute: nat)
    requires
        hour < 100,
        minute < 100,
    ensures
        clock_text_of(hour, minute).len() == 5,
        clock_text_of(hour, minute)[2] == ':',
        all_ascii_digits(clock_text_of(hour, minute).subrange(0, 2)),
        all_ascii_digits(clock_text_of(hour, minute).subrange(3, 5)),
        digits_value(clock_text_of(hour, minute).subrange(0, 2)) == hour,
        digits_value(clock_text_of(hour, minute).subrange(3, 5)) == minute,
{
    lemma_two_digits_reads_back(hour);
    lemma_two_digits_reads_back(minute);
    assert(two_digits(hour).len() == 2) by {
        if hour >= 10 {
            assert(decimal(hour) == decimal(hour / 10).push(digit_char(hour % 10)));
        }
    }
    assert(two_digits(minute).len() == 2) by {
        if minute >= 10 {
            assert(decimal(minute) == decimal(minute / 10).push(digit_char(minute % 10)));
        }
    }
    let t = clock_text_of(hour, minute);
    assert(t.subrange(0, 2) =~= two_digits(hour));
    assert(t.subrange(3, 5) =~= two_digits(minute));
}

} // verus!
