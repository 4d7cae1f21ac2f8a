//! The two-row buffer behind wireframe surfaces: each grid point is joined to
//! its neighbour on the left and to its neighbour in the row above.
use vstd::prelude::*;
use vstd::arithmetic::div_mod::lemma_fundamental_div_mod_converse;

verus! {

/// Points of a row-major grid of side `len`, fed in order; keeps the current
/// row and the row before it, so each new point can reach both neighbours.
pub struct SurfaceRows<P> {
    len: usize,
    last: Vec<Option<P>>,
    cur: Vec<Option<P>>,
    rows: Ghost<nat>,
    pushed: Ghost<Seq<Option<P>>>,
}

impl<P: Copy> SurfaceRows<P> {
    /// Every point fed so far, in order.
    pub closed spec fn pushed(&self) -> Seq<Option<P>> {
        self.pushed@
    }

    /// The side of the grid.
    pub closed spec fn side(&self) -> nat {
        self.len as nat
    }

    pub closed spec fn wf(&self) -> bool {
        let n = self.pushed@.len();
        let rows = self.rows@;
        &&& self.len > 0
        &&& self.cur@.len() < self.len
        &&& n == rows * self.len + self.cur@.len()
        &&& self.cur@ == self.pushed@.subrange(rows * self.len, n as int)
        &&& rows == 0 ==> self.last@.len() == 0
        &&& rows > 0 ==> self.last@ == self.pushed@.subrange((rows - 1) * self.len, rows * self.len)
    }

    /// An empty buffer for a grid of side `len`.
    pub fn new(len: usize) -> (r: Self)
        requires
            len > 0,
        ensures
            r.wf(),
            r.side() == len,
            r.pushed() == Seq::<Option<P>>::empty(),
    {
        assert(0 * len == 0) by (nonlinear_arith);
        let r = SurfaceRows {
            len,
            last: Vec::new(),
            cur: Vec::new(),
            rows: Ghost(0),
            pushed: Ghost(Seq::empty()),
        };
        assert(r.cur@ =~= r.pushed@.subrange(0, 0));
        r
    }

    /// The neighbour on the left of the next point: the point fed just before
    /// it, unless the next point starts a row.
    pub fn left(&self) -> (r: Option<P>)
        requires
            self.wf(),
        ensures
            r == if self.pushed().len() % self.side() != 0 {
                self.pushed().last()
            } else {
                None
            },
    {
        proof {
            lemma_fundamental_div_mod_converse(
                self.pushed@.len() as int,
                self.len as int,
                self.rows@ as int,
                self.cur@.len() as int,
            );
        }
        if self.cur.len() > 0 {
            self.cur[self.cur.len() - 1]
        } else {
            None
        }
    }

    /// The neighbour above the next point: the point fed `side` points
    /// before it, unless the next point lies in the first row.
    pub fn up(&self) -> (r: Option<P>)
        requires
            self.wf(),
        ensures
            r == if self.pushed().len() >= self.side() {
                self.pushed()[self.pushed().len() - self.side()]
            } else {
                None
            },
    {
        proof {
            let rows = self.rows@;
            if rows > 0 {
                assert(rows * self.len == (rows - 1) * self.len + self.len) by (nonlinear_arith);
                assert((rows - 1) * self.len >= 0) by (nonlinear_arith)
                    requires
                        rows > 0,
                ;
            } else {
                assert(rows * self.len == 0) by (nonlinear_arith)
                    requires
                        rows == 0,
                ;
            }
        }
        if self.last.len() > 0 {
            self.last[self.cur.len()]
        } else {
            None
        }
    }

    /// Feeds the next point of the grid (`None` where no point is drawn).
    pub fn push(&mut self, p: Option<P>)
        requires
            old(self).wf(),
        ensures
            final(self).wf(),
            final(self).side() == old(self).side(),
            final(self).pushed() == old(self).pushed().push(p),
    {
        let ghost old_pushed = self.pushed@;
        let ghost rows = self.rows@;
        self.cur.push(p);
        self.pushed = Ghost(old_pushed.push(p));
        assert(self.cur@ =~= self.pushed@.subrange(rows * self.len, self.pushed@.len() as int));
        proof {
            if rows > 0nat {
                assert(rows * self.len == (rows - 1) * self.len + self.len) by (nonlinear_arith);
                assert((rows - 1) * self.len >= 0) by (nonlinear_arith)
                    requires
                        rows > 0,
                ;
                assert(self.last@ =~= self.pushed@.subrange((rows - 1) * self.len, rows * self.len));
            }
        }
        if self.cur.len() == self.len {
            std::mem::swap(&mut self.last, &mut self.cur);
            self.cur.clear();
            self.rows = Ghost(rows + 1);
            assert((rows + 1) * self.len == rows * self.len + self.len) by (nonlinear_arith);
            assert(((rows + 1) - 1) * self.len == rows * self.len);
            assert(self.last@ =~= self.pushed@.subrange(rows * self.len, (rows + 1) * self.len));
            assert(self.cur@ =~= self.pushed@.subrange((rows + 1) * self.len, self.pushed@.len() as int));
        }
    }
}

} // verus!
