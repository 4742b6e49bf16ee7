use vstd::prelude::*;

verus! {

/// The buffer after the first `k` steps of the sequential in-place roll:
/// step `j` overwrites slot `j` with the current value of slot
/// `(j + shift) % len`, so earlier writes feed later ones, exactly as the
/// in-place loop behaves.
pub open spec fn spec_roll_steps<T>(s: Seq<T>, shift: int, k: int) -> Seq<T>
    decreases k,
{
    if k <= 0 || s.len() == 0 {
        s
    } else {
        let t = spec_roll_steps(s, shift, k - 1);
        t.update(k - 1, t[(k - 1 + shift) % (s.len() as int)])
    }
}

/// Rolling steps keep the length of the sequence.
pub proof fn lemma_roll_steps_len<T>(s: Seq<T>, shift: int, k: int)
    requires
        k <= s.len(),
    ensures
        spec_roll_steps(s, shift, k).len() == s.len(),
    decreases k,
{
    if k > 0 && s.len() > 0 {
        lemma_roll_steps_len(s, shift, k - 1);
    }
}

/// Order- and index-based rearrangements of a buffer, defined for any
/// copyable element type.
pub trait YttriaVectorUtils<T: Copy>: View<V = Seq<T>> {
    /// Each element repeated `repeats` times in a row.
    fn repeat(&self, repeats: usize) -> (r: Vec<T>)
        requires
            self@.len() * repeats <= usize::MAX,
        ensures
            r@.len() == self@.len() * repeats,
            forall|i: int| 0 <= i < r@.len() ==> r@[i] == self@[i / (repeats as int)],
    ;

    /// The whole buffer repeated `repeats` times end to end.
    fn tile(&self, repeats: usize) -> (r: Vec<T>)
        requires
            self@.len() * repeats <= usize::MAX,
        ensures
            r@.len() == self@.len() * repeats,
            forall|i: int| 0 <= i < r@.len() ==> r@[i] == self@[i % (self@.len() as int)],
    ;

    /// This buffer followed by the other.
    fn concatenate(&self, other: &Vec<T>) -> (r: Vec<T>)
        requires
            self@.len() + other@.len() <= usize::MAX,
        ensures
            r@ == self@ + other@,
    ;

    /// Fill `out` with this buffer rotated left by `shift`, wrapping
    /// around this buffer's length.
    fn roll_into(&self, out: &mut Vec<T>, shift: usize)
        requires
            self@.len() >= 1 || old(out)@.len() == 0,
            shift <= usize::MAX - old(out)@.len(),
        ensures
            final(out)@.len() == old(out)@.len(),
            forall|i: int|
                0 <= i < old(out)@.len() ==> final(out)@[i] == self@[(i + shift as int) % (
                self@.len() as int)],
    ;

    /// The buffer rotated left by `shift`.
    fn roll(&self, shift: usize) -> (r: Vec<T>)
        requires
            shift <= usize::MAX - self@.len(),
        ensures
            r@.len() == self@.len(),
            forall|i: int|
                0 <= i < self@.len() ==> r@[i] == self@[(i + shift as int) % (self@.len() as int)],
    ;

    /// Rotate in place, front to back, each slot taking the current value
    /// `shift` ahead (so values already overwritten feed later slots, as
    /// the sequential loop works).
    fn roll_in_place(&mut self, shift: usize)
        requires
            shift <= usize::MAX - old(self)@.len(),
        ensures
            final(self)@ == spec_roll_steps(old(self)@, shift as int, old(self)@.len() as int),
    ;

    /// Fill `out` with the buffer rolled by half its length, swapping the
    /// two halves of a spectrum.
    fn fftshift_into(&self, out: &mut Vec<T>)
        requires
            self@.len() >= 1 || old(out)@.len() == 0,
            self@.len() / 2 <= usize::MAX - old(out)@.len(),
            self@.len() / 2 <= usize::MAX - self@.len(),
        ensures
            final(out)@.len() == old(out)@.len(),
            forall|i: int|
                0 <= i < old(out)@.len() ==> final(out)@[i] == self@[(i + (self@.len() / 2) as int)
                    % (self@.len() as int)],
    ;

    /// The buffer rolled by half its length.
    fn fftshift(&self) -> (r: Vec<T>)
        requires
            self@.len() / 2 <= usize::MAX - self@.len(),
        ensures
            r@.len() == self@.len(),
            forall|i: int|
                0 <= i < self@.len() ==> r@[i] == self@[(i + (self@.len() / 2) as int) % (
                self@.len() as int)],
    ;

    /// Roll in place by half the length, with the sequential semantics of
    /// `roll_in_place`.
    fn fftshift_in_place(&mut self)
        requires
            old(self)@.len() / 2 <= usize::MAX - old(self)@.len(),
        ensures
            final(self)@ == spec_roll_steps(
                old(self)@,
                (old(self)@.len() / 2) as int,
                old(self)@.len() as int,
            ),
    ;
}

impl<T: Copy> YttriaVectorUtils<T> for Vec<T> {
    fn repeat(&self, repeats: usize) -> (r: Vec<T>) {
        let n = self.len();
        let total = n * repeats;
        let mut out: Vec<T> = Vec::new();
        for i in 0..total
            invariant
                n == self@.len(),
                total == n * repeats,
                out@.len() == i,
                forall|j: int| 0 <= j < i ==> out@[j] == self@[j / (repeats as int)],
        {
            proof {
                assert(repeats >= 1 && (i as int) / (repeats as int) < n as int) by (nonlinear_arith)
                    requires
                        (i as int) < (n as int) * (repeats as int),
                        0 <= i as int,
                        0 <= n as int,
                ;
            }
            out.push(self[i / repeats]);
        }
        out
    }

    fn tile(&self, repeats: usize) -> (r: Vec<T>) {
        let n = self.len();
        let total = n * repeats;
        let mut out: Vec<T> = Vec::new();
        for i in 0..total
            invariant
                n == self@.len(),
                total == n * repeats,
                out@.len() == i,
                forall|j: int| 0 <= j < i ==> out@[j] == self@[j % (n as int)],
        {
            proof {
                assert(n >= 1) by (nonlinear_arith)
                    requires
                        (i as int) < (n as int) * (repeats as int),
                        0 <= i as int,
                        0 <= n as int,
                ;
            }
            out.push(self[i % n]);
        }
        out
    }

    fn concatenate(&self, other: &Vec<T>) -> (r: Vec<T>) {
        let mut out: Vec<T> = Vec::new();
        let n = self.len();
        for i in 0..n
            invariant
                n == self@.len(),
                out@.len() == i,
                forall|j: int| 0 <= j < i ==> out@[j] == self@[j],
        {
            out.push(self[i]);
        }
        let m = other.len();
        for i in 0..m
            invariant
                n == self@.len(),
                m == other@.len(),
                out@.len() == n + i,
                forall|j: int| 0 <= j < n ==> out@[j] == self@[j],
                forall|j: int| 0 <= j < i ==> out@[n + j] == other@[j],
        {
            out.push(other[i]);
        }
        proof {
            assert(out@ =~= self@ + other@);
        }
        out
    }

    fn roll_into(&self, out: &mut Vec<T>, shift: usize) {
        let n = out.len();
        for i in 0..n
            invariant
                n == old(out)@.len(),
                out@.len() == n,
                self@.len() >= 1 || n == 0,
                shift <= usize::MAX - n,
                forall|j: int|
                    0 <= j < i ==> out@[j] == self@[(j + shift as int) % (self@.len() as int)],
        {
            let v = self[(i + shift) % self.len()];
            out.set(i, v);
        }
    }

    fn roll(&self, shift: usize) -> (r: Vec<T>) {
        let n = self.len();
        let mut out: Vec<T> = Vec::new();
        for i in 0..n
            invariant
                n == self@.len(),
                shift <= usize::MAX - n,
                out@.len() == i,
                forall|j: int|
                    0 <= j < i ==> out@[j] == self@[(j + shift as int) % (self@.len() as int)],
        {
            out.push(self[(i + shift) % n]);
        }
        out
    }

    fn roll_in_place(&mut self, shift: usize) {
        let n = self.len();
        for i in 0..n
            invariant
                n == old(self)@.len(),
                self@.len() == n,
                shift <= usize::MAX - n,
                self@ == spec_roll_steps(old(self)@, shift as int, i as int),
        {
            proof {
                lemma_roll_steps_len(old(self)@, shift as int, i as int);
            }
            let v = self[(i + shift) % n];
            self.set(i, v);
            proof {
                assert(self@ =~= spec_roll_steps(old(self)@, shift as int, i as int + 1));
            }
        }
    }

    fn fftshift_into(&self, out: &mut Vec<T>) {
        self.roll_into(out, self.len() / 2);
    }

    fn fftshift(&self) -> (r: Vec<T>) {
        self.roll(self.len() / 2)
    }

    fn fftshift_in_place(&mut self) {
        let half = self.len() / 2;
        self.roll_in_place(half);
    }
}

} // verus!
