use vstd::prelude::*;

verus! {

/// Per-pixel running sums of a progressive render, with the number of passes summed so far.
///
/// The sums are laid out row-major (see `raster`). A pass adds one sample to every slot; the
/// sums persist until the buffer is set up again.
pub struct Accumulation<C> {
    width: usize,
    height: usize,
    sums: Vec<C>,
    steps: usize,
}

impl<C: Copy> Accumulation<C> {
    /// One slot per pixel of the frame.
    pub open spec fn wf(&self) -> bool {
        self.spec_sums().len() == self.spec_width() * self.spec_height()
    }

    pub closed spec fn spec_width(&self) -> nat {
        self.width as nat
    }

    pub closed spec fn spec_height(&self) -> nat {
        self.height as nat
    }

    pub closed spec fn spec_sums(&self) -> Seq<C> {
        self.sums@
    }

    pub closed spec fn spec_steps(&self) -> nat {
        self.steps as nat
    }

    /// A buffer for a `width` x `height` frame with every sum at `zero` and no pass counted.
    pub fn new(width: usize, height: usize, zero: C) -> (a: Self)
        requires
            width * height <= usize::MAX,
        ensures
            a.spec_width() == width,
            a.spec_height() == height,
            a.spec_sums() == Seq::new((width * height) as nat, |i: int| zero),
            a.spec_steps() == 0,
    {
        let len = width * height;
        let mut sums: Vec<C> = Vec::with_capacity(len);
        let mut i: usize = 0;
        while i < len
            invariant
                i <= len,
                sums@ == Seq::new(i as nat, |k: int| zero),
            decreases len - i,
        {
            sums.push(zero);
            i = i + 1;
            assert(sums@ =~= Seq::new(i as nat, |k: int| zero));
        }
        Accumulation { width, height, sums, steps: 0 }
    }

    /// Sets the buffer up again for a `width` x `height` frame: every sum back at `zero`, the
    /// pass count back at zero.
    pub fn reset(&mut self, width: usize, height: usize, zero: C)
        requires
            width * height <= usize::MAX,
        ensures
            final(self).spec_width() == width,
            final(self).spec_height() == height,
            final(self).spec_sums() == Seq::new((width * height) as nat, |i: int| zero),
            final(self).spec_steps() == 0,
    {
        *self = Self::new(width, height, zero);
    }

    pub fn width(&self) -> (w: usize)
        ensures
            w == self.spec_width(),
    {
        self.width
    }

    pub fn height(&self) -> (h: usize)
        ensures
            h == self.spec_height(),
    {
        self.height
    }

    /// Number of passes summed since the buffer was set up.
    pub fn steps(&self) -> (n: usize)
        ensures
            n == self.spec_steps(),
    {
        self.steps
    }

    /// The running sums, row-major.
    pub fn sums(&self) -> (s: &Vec<C>)
        ensures
            s@ == self.spec_sums(),
    {
        &self.sums
    }

    /// Adds one pass: `samples[i]` joins the sum of slot `i` through `combine`, and the pass is
    /// counted.
    pub fn add_pass<F: Fn(C, C) -> C>(&mut self, samples: &Vec<C>, combine: F)
        requires
            old(self).wf(),
            samples@.len() == old(self).spec_sums().len(),
            old(self).spec_steps() < usize::MAX,
            forall|s: C, x: C| combine.requires((s, x)),
        ensures
            final(self).wf(),
            final(self).spec_width() == old(self).spec_width(),
            final(self).spec_height() == old(self).spec_height(),
            final(self).spec_steps() == old(self).spec_steps() + 1,
            final(self).spec_sums().len() == old(self).spec_sums().len(),
            forall|i: int|
                0 <= i < samples@.len() ==> combine.ensures(
                    (old(self).spec_sums()[i], samples@[i]),
                    #[trigger] final(self).spec_sums()[i],
                ),
    {
        let n = self.sums.len();
        let mut i: usize = 0;
        while i < n
            invariant
                0 <= i <= n,
                n == samples@.len(),
                self.sums@.len() == n,
                self.width == old(self).width,
                self.height == old(self).height,
                self.steps == old(self).steps,
                forall|s: C, x: C| combine.requires((s, x)),
                forall|k: int| i <= k < n ==> self.sums@[k] == old(self).sums@[k],
                forall|k: int|
                    0 <= k < i ==> combine.ensures(
                        (old(self).sums@[k], samples@[k]),
                        #[trigger] self.sums@[k],
                    ),
            decreases n - i,
        {
            let s = combine(self.sums[i], samples[i]);
            self.sums.set(i, s);
            i = i + 1;
        }
        self.steps = self.steps + 1;
    }
}

} // verus!
