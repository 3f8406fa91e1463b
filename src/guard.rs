use vstd::prelude::*;

verus! {

/// The order in which a guard that was dropped without `take` destroys what it
/// holds: the last acquisition first.
pub open spec fn release_order<H>(held: Seq<H>) -> Seq<H> {
    held.reverse()
}

/// Exclusive ownership of an ordered sequence of native objects that are not yet
/// handed to a longer-lived owner.
///
/// Destruction is explicit: `release` consumes the guard and returns the objects
/// in the order in which they must be destroyed (each exactly once), while `take`
/// transfers them out and leaves nothing to destroy.
pub struct Guarded<H> {
    held: Vec<H>,
}

impl<H> View for Guarded<H> {
    type V = Seq<H>;

    closed spec fn view(&self) -> Seq<H> {
        self.held@
    }
}

impl<H: Copy> Guarded<H> {
    /// A guard that holds nothing yet.
    pub fn new() -> (r: Self)
        ensures
            r@ == Seq::<H>::empty(),
    {
        Guarded { held: Vec::new() }
    }

    /// A guard over one freshly acquired object.
    pub fn guard(handle: H) -> (r: Self)
        ensures
            r@ == seq![handle],
    {
        let mut held = Vec::new();
        held.push(handle);
        Guarded { held }
    }

    /// Records one more acquisition; it will be destroyed before everything
    /// acquired earlier.
    pub fn push(&mut self, handle: H)
        ensures
            final(self)@ == old(self)@.push(handle),
    {
        self.held.push(handle);
    }

    /// Moves everything that `other` holds into this guard, after what it
    /// already holds.
    pub fn absorb(&mut self, other: Guarded<H>)
        ensures
            final(self)@ == old(self)@ + other@,
    {
        let mut other = other;
        self.held.append(&mut other.held);
    }

    /// The number of objects held.
    pub fn len(&self) -> (r: usize)
        ensures
            r == self@.len(),
    {
        self.held.len()
    }

    /// Read access to what is held, in acquisition order.
    pub fn held(&self) -> (r: &[H])
        ensures
            r@ == self@,
    {
        self.held.as_slice()
    }

    /// Transfers ownership out: the objects are returned in acquisition order and
    /// nothing is to be destroyed.
    pub fn take(self) -> (r: Vec<H>)
        ensures
            r@ == self@,
    {
        self.held
    }

    /// Ends the guard without `take`: the result lists every held object exactly
    /// once, in the order in which it must be destroyed.
    pub fn release(self) -> (r: Vec<H>)
        ensures
            r@ == release_order(self@),
    {
        let n = self.held.len();
        let mut out: Vec<H> = Vec::with_capacity(n);
        let mut i: usize = n;
        while i > 0
            invariant
                i <= n,
                n == self.held@.len(),
                out@.len() == n - i,
                forall|j: int| 0 <= j < n - i ==> out@[j] == self.held@[n - 1 - j],
            decreases i,
        {
            i = i - 1;
            out.push(self.held[i]);
        }
        proof {
            assert(out@ =~= self.held@.reverse());
        }
        out
    }
}

/// A construction whose steps acquired `steps[0]`, `steps[1]`, ... one after the
/// other and whose step `k` (counting from one) failed destroys exactly the
/// objects of steps `1..k-1`, the most recent first; the object of the failed
/// step, never completed, is not destroyed.
pub proof fn lemma_failed_step_unwinds<H>(steps: Seq<H>, k: int)
    requires
        1 <= k <= steps.len(),
        steps.no_duplicates(),
    ensures
        release_order(steps.take(k - 1)).len() == k - 1,
        forall|i: int|
            0 <= i < k - 1 ==> #[trigger] release_order(steps.take(k - 1))[i] == steps[k - 2 - i],
        !release_order(steps.take(k - 1)).contains(steps[k - 1]),
{
    let done = steps.take(k - 1);
    let r = release_order(done);
    if r.contains(steps[k - 1]) {
        let i = choose|i: int| 0 <= i < r.len() && r[i] == steps[k - 1];
        assert(r[i] == steps[k - 2 - i]);
    }
}

/// A sequence guard dropped after `k` pushes onto an empty guard destroys exactly
/// the `k` pushed objects, each once.
pub proof fn lemma_sequence_guard_releases_pushed<H>(pushed: Seq<H>)
    ensures
        release_order(Seq::<H>::empty() + pushed).len() == pushed.len(),
        release_order(Seq::<H>::empty() + pushed).to_multiset() =~= pushed.to_multiset(),
{
    let s = Seq::<H>::empty() + pushed;
    assert(s =~= pushed);
    lemma_reverse_same_multiset(pushed);
}

proof fn lemma_reverse_same_multiset<H>(s: Seq<H>)
    ensures
        s.reverse().to_multiset() =~= s.to_multiset(),
    decreases s.len(),
{
    if s.len() > 0 {
        let last = s.last();
        let front = s.drop_last();
        lemma_reverse_same_multiset(front);
        assert(s.reverse() =~= seq![last] + front.reverse());
        assert(s =~= front.push(last));
        vstd::seq_lib::lemma_multiset_commutative(seq![last], front.reverse());
        front.to_multiset_ensures();
        s.to_multiset_ensures();
        seq![last].to_multiset_ensures();
        vstd::seq_lib::lemma_multiset_commutative(front, seq![last]);
        assert(front + seq![last] =~= front.push(last));
    } else {
        assert(s.reverse() =~= s);
    }
}

} // verus!
