use vstd::arithmetic::div_mod::lemma_div_basics_1;
use vstd::arithmetic::div_mod::lemma_fundamental_div_mod;
use vstd::arithmetic::div_mod::lemma_fundamental_div_mod_converse;
use vstd::arithmetic::div_mod::lemma_mod_pos_bound;
use vstd::prelude::*;

verus! {

/// Whether a state carrying `step` lands in slot 0 of a buffer of
/// `buffer_length` slots, i.e. whether the buffer has just wrapped.
pub open spec fn wraps_at(buffer_length: int, step: int) -> bool {
    step % buffer_length == 0
}

/// Number of steps s with 1 <= s <= n at which a buffer of `buffer_length`
/// slots wraps: the number of flushes a run that stores steps 1 through n
/// performs.
pub open spec fn wrap_count(buffer_length: int, n: int) -> int
    decreases n,
{
    if n <= 0 {
        0
    } else if wraps_at(buffer_length, n) {
        wrap_count(buffer_length, n - 1) + 1
    } else {
        wrap_count(buffer_length, n - 1)
    }
}

/// The wraps among steps 1 through n are exactly the multiples of the buffer
/// length, so their number is the quotient n / buffer_length.
pub proof fn lemma_wrap_count_is_quotient(buffer_length: int, n: int)
    requires
        1 <= buffer_length,
        0 <= n,
    ensures
        wrap_count(buffer_length, n) == n / buffer_length,
    decreases n,
{
    if n == 0 {
        lemma_div_basics_1(buffer_length);
    } else {
        lemma_wrap_count_is_quotient(buffer_length, n - 1);
        lemma_fundamental_div_mod(n, buffer_length);
        lemma_mod_pos_bound(n, buffer_length);
        let q = n / buffer_length;
        let r = n % buffer_length;
        assert(buffer_length * (q - 1) == buffer_length * q - buffer_length)
            by (nonlinear_arith);
        if r == 0 {
            // n == q * buffer_length, so n - 1 sits at remainder
            // buffer_length - 1 under quotient q - 1.
            lemma_fundamental_div_mod_converse(n - 1, buffer_length, q - 1, buffer_length - 1);
        } else {
            lemma_fundamental_div_mod_converse(n - 1, buffer_length, q, r - 1);
        }
    }
}

/// Flush cadence. A full rendering run bounded by `step_limit` stores the
/// states with steps 1 through `step_limit + 1` and flushes once per wrap
/// among them. Whenever the buffer length divides `step_limit + 1` (a
/// length-1 buffer always does), that comes to exactly
/// `step_limit / buffer_length + 1` flushes.
pub proof fn lemma_flush_cadence(step_limit: int, buffer_length: int)
    requires
        1 <= buffer_length,
        0 <= step_limit,
        (step_limit + 1) % buffer_length == 0,
    ensures
        wrap_count(buffer_length, step_limit + 1) == step_limit / buffer_length + 1,
{
    lemma_wrap_count_is_quotient(buffer_length, step_limit + 1);
    lemma_fundamental_div_mod(step_limit + 1, buffer_length);
    let q = (step_limit + 1) / buffer_length;
    assert(buffer_length * (q - 1) == buffer_length * q - buffer_length)
        by (nonlinear_arith);
    lemma_fundamental_div_mod_converse(step_limit, buffer_length, q - 1, buffer_length - 1);
}

/// Total number of flushes a full rendering run performs: one per wrapping
/// step among the stored steps 1 through `step_limit + 1`.
pub fn flush_count(step_limit: u64, buffer_length: usize) -> (n: u64)
    requires
        buffer_length > 0,
        step_limit < u64::MAX,
    ensures
        n == wrap_count(buffer_length as int, step_limit as int + 1),
{
    proof {
        lemma_wrap_count_is_quotient(buffer_length as int, step_limit as int + 1);
    }
    (step_limit + 1) / (buffer_length as u64)
}

/// Fixed-length circular record of recently produced positions.
///
/// A state carrying step s overwrites the slot s % length in place; the
/// buffer never grows or shrinks. A store into slot 0 means the buffer has
/// just wrapped, and the renderer then draws the entire current contents —
/// including the slot just overwritten, so the batch mixes one fresh point
/// with length - 1 older ones.
pub struct TrailBuffer<T> {
    cells: Vec<T>,
}

impl<T> View for TrailBuffer<T> {
    type V = Seq<T>;

    closed spec fn view(&self) -> Seq<T> {
        self.cells@
    }
}

impl<T: Copy> TrailBuffer<T> {
    /// A buffer of `length` slots, every slot holding `fill`.
    pub fn new(length: usize, fill: T) -> (b: Self)
        requires
            length > 0,
        ensures
            b@.len() == length,
            forall|i: int| 0 <= i < length ==> b@[i] == fill,
    {
        let mut cells: Vec<T> = Vec::new();
        while cells.len() < length
            invariant
                cells.len() <= length,
                forall|i: int| 0 <= i < cells.len() ==> cells[i] == fill,
            decreases length - cells.len(),
        {
            cells.push(fill);
        }
        TrailBuffer { cells }
    }
}

impl<T> TrailBuffer<T> {
    /// Number of slots, fixed at construction.
    pub fn len(&self) -> (n: usize)
        ensures
            n == self@.len(),
    {
        self.cells.len()
    }

    /// The current contents; slot i holds the position of the last stored
    /// state whose step was congruent to i modulo the length.
    pub fn entries(&self) -> (r: &Vec<T>)
        ensures
            r@ == self@,
    {
        &self.cells
    }

    /// Store the position of the state carrying `step` into its slot, and
    /// report whether the buffer wrapped — whether the whole contents are to
    /// be flushed to the drawing surface.
    pub fn store(&mut self, step: u64, value: T) -> (flush: bool)
        requires
            old(self)@.len() > 0,
        ensures
            final(self)@ == old(self)@.update(step as int % old(self)@.len() as int, value),
            flush == wraps_at(old(self)@.len() as int, step as int),
    {
        let length: usize = self.cells.len();
        let slot_wide: u64 = step % (length as u64);
        proof {
            lemma_mod_pos_bound(step as int, length as int);
        }
        let slot: usize = slot_wide as usize;
        self.cells.set(slot, value);
        slot == 0
    }
}

} // verus!
