//! Page arithmetic of the session list and the split of the screen into a
//! list panel and a preview panel.
use vstd::prelude::*;

verus! {

/// Widths of the two panels of the split view and of the gap between them.
#[derive(Clone, Copy, Debug)]
pub struct SplitLayout {
    pub left_width: u16,
    pub right_width: u16,
    pub total_height: u16,
    pub total_width: u16,
    pub gap: u16,
}

/// Width of the left panel: 35% of the usable width, rounded down.
pub open spec fn left_share(usable: nat) -> nat {
    usable * 35 / 100
}

impl SplitLayout {
    /// Splits `total_width` (less a one-column gap) into a 35% list panel and
    /// a preview panel that takes the rest.
    pub fn new(total_width: u16, total_height: u16) -> (r: SplitLayout)
        ensures
            r.left_width as nat == left_share((if total_width > 0 { total_width - 1 } else { 0 }) as nat),
            r.left_width + r.right_width == (if total_width > 0 { total_width - 1 } else { 0 }),
            r.total_width == total_width,
            r.total_height == total_height,
            r.gap == 1,
    {
        let usable: u16 = total_width.saturating_sub(1);
        let wide: u32 = usable as u32 * 35;
        let left: u16 = (wide / 100) as u16;
        assert(left <= usable);
        let right: u16 = usable - left;
        SplitLayout { left_width: left, right_width: right, total_height, total_width, gap: 1 }
    }

    /// (x, y, width, height) of the list panel.
    pub fn left_area(&self) -> (r: (u16, u16, u16, u16))
        ensures
            r == (0u16, 0u16, self.left_width, self.total_height),
    {
        (0, 0, self.left_width, self.total_height)
    }

    /// (x, y, width, height) of the preview panel, right of the gap. The
    /// column saturates at the largest `u16`.
    pub fn right_area(&self) -> (r: (u16, u16, u16, u16))
        ensures
            r.0 as int == if self.left_width + self.gap <= u16::MAX {
                self.left_width + self.gap
            } else {
                u16::MAX as int
            },
            r.1 == 0,
            r.2 == self.right_width,
            r.3 == self.total_height,
    {
        let x = self.left_width.saturating_add(self.gap);
        (x, 0, self.right_width, self.total_height)
    }
}

/// Paging of a list of `total_items` items, `items_per_page` to a page.
#[derive(Clone, Copy, Debug)]
pub struct Pagination {
    pub total_items: usize,
    pub items_per_page: usize,
    pub current_page: usize,
}

/// Number of pages for `total` items, `per` to a page.
pub open spec fn pages(total: nat, per: nat) -> nat
    recommends
        per > 0,
{
    ((total + per - 1) / (per as int)) as nat
}

impl Pagination {
    /// Pages are non-empty and the current page starts within the list.
    pub open spec fn wf(&self) -> bool {
        self.items_per_page > 0 && self.current_page * self.items_per_page <= self.total_items
    }

    /// Paging of `total_items` items, on the first page.
    pub fn new(total_items: usize, items_per_page: usize) -> (r: Pagination)
        ensures
            r.total_items == total_items,
            r.items_per_page == items_per_page,
            r.current_page == 0,
            items_per_page > 0 ==> r.wf(),
    {
        Pagination { total_items, items_per_page, current_page: 0 }
    }

    /// Number of pages (0 for an empty list).
    pub fn total_pages(&self) -> (r: usize)
        requires
            self.items_per_page > 0,
        ensures
            r as nat == pages(self.total_items as nat, self.items_per_page as nat),
    {
        let q = self.total_items / self.items_per_page;
        let rem = self.total_items % self.items_per_page;
        proof {
            let t = self.total_items as int;
            let p = self.items_per_page as int;
            assert(t == p * q + rem) by (nonlinear_arith)
                requires
                    p > 0,
                    q == t / p,
                    rem == t % p,
            ;
            if rem == 0 {
                assert((t + p - 1) / p == q) by (nonlinear_arith)
                    requires
                        t == p * q,
                        p > 0,
                ;
            } else {
                assert((t + p - 1) / p == q + 1) by (nonlinear_arith)
                    requires
                        t == p * q + rem,
                        0 < rem < p,
                ;
                assert(q < usize::MAX) by (nonlinear_arith)
                    requires
                        t == p * q + rem,
                        0 < rem < p,
                        t <= usize::MAX,
                ;
            }
        }
        if rem == 0 {
            q
        } else {
            q + 1
        }
    }

    /// Index of the first item of the current page.
    pub fn page_start(&self) -> (r: usize)
        requires
            self.wf(),
        ensures
            r == self.current_page * self.items_per_page,
    {
        self.current_page * self.items_per_page
    }

    /// One past the last item of the current page.
    pub fn page_end(&self) -> (r: usize)
        requires
            self.wf(),
        ensures
            r as int == if (self.current_page + 1) * self.items_per_page <= self.total_items {
                (self.current_page + 1) * self.items_per_page
            } else {
                self.total_items as int
            },
    {
        let start = self.current_page * self.items_per_page;
        proof {
            let c = self.current_page as int;
            let p = self.items_per_page as int;
            assert((c + 1) * p == c * p + p) by (nonlinear_arith);
        }
        if self.total_items - start >= self.items_per_page {
            start + self.items_per_page
        } else {
            self.total_items
        }
    }

    /// Item indices of the current page.
    pub fn page_range(&self) -> (r: std::ops::Range<usize>)
        requires
            self.wf(),
        ensures
            r.start == self.current_page * self.items_per_page,
            r.start <= r.end <= self.total_items,
            r.end as int == if (self.current_page + 1) * self.items_per_page <= self.total_items {
                (self.current_page + 1) * self.items_per_page
            } else {
                self.total_items as int
            },
    {
        let start = self.page_start();
        let end = self.page_end();
        proof {
            let c = self.current_page as int;
            let p = self.items_per_page as int;
            assert((c + 1) * p == c * p + p) by (nonlinear_arith);
        }
        start..end
    }

    /// Whether a page follows the current one.
    pub fn has_next(&self) -> (r: bool)
        requires
            self.wf(),
        ensures
            r == (self.current_page + 1 < pages(self.total_items as nat, self.items_per_page as nat)),
    {
        let n = self.total_pages();
        self.current_page < n && self.current_page + 1 < n
    }

    /// Whether a page precedes the current one.
    pub fn has_prev(&self) -> (r: bool)
        ensures
            r == (self.current_page > 0),
    {
        self.current_page > 0
    }

    proof fn lemma_page_fits(&self, page: nat)
        requires
            self.items_per_page > 0,
            page < pages(self.total_items as nat, self.items_per_page as nat),
        ensures
            page * self.items_per_page < self.total_items,
    {
        let t = self.total_items as int;
        let p = self.items_per_page as int;
        let n = (t + p - 1) / p;
        assert(page * p < t) by (nonlinear_arith)
            requires
                p > 0,
                t >= 0,
                n == (t + p - 1) / p,
                page < n,
        ;
    }

    /// Moves to the next page, if there is one; says whether it moved.
    pub fn next_page(&mut self) -> (r: bool)
        requires
            old(self).wf(),
        ensures
            final(self).wf(),
            final(self).total_items == old(self).total_items,
            final(self).items_per_page == old(self).items_per_page,
            r == (old(self).current_page + 1 < pages(
                old(self).total_items as nat,
                old(self).items_per_page as nat,
            )),
            final(self).current_page == if r {
                old(self).current_page + 1
            } else {
                old(self).current_page as int
            },
    {
        let n = self.total_pages();
        if self.current_page < n && self.current_page + 1 < n {
            proof {
                self.lemma_page_fits((self.current_page + 1) as nat);
            }
            self.current_page = self.current_page + 1;
            true
        } else {
            false
        }
    }

    /// Moves to the previous page, if there is one; says whether it moved.
    pub fn prev_page(&mut self) -> (r: bool)
        requires
            old(self).wf(),
        ensures
            final(self).wf(),
            final(self).total_items == old(self).total_items,
            final(self).items_per_page == old(self).items_per_page,
            r == (old(self).current_page > 0),
            final(self).current_page == if r {
                old(self).current_page - 1
            } else {
                old(self).current_page as int
            },
    {
        if self.current_page > 0 {
            proof {
                assert((self.current_page - 1) * self.items_per_page <= self.current_page
                    * self.items_per_page) by (nonlinear_arith);
            }
            self.current_page = self.current_page - 1;
            true
        } else {
            false
        }
    }

    /// Jumps to the first page.
    pub fn first_page(&mut self)
        requires
            old(self).wf(),
        ensures
            final(self).wf(),
            *final(self) == (Pagination { current_page: 0, ..*old(self) }),
    {
        self.current_page = 0;
    }

    /// Jumps to the last page (the first, when the list is empty).
    pub fn last_page(&mut self)
        requires
            old(self).wf(),
        ensures
            final(self).wf(),
            final(self).total_items == old(self).total_items,
            final(self).items_per_page == old(self).items_per_page,
            final(self).current_page as int == if pages(
                old(self).total_items as nat,
                old(self).items_per_page as nat,
            ) > 0 {
                pages(old(self).total_items as nat, old(self).items_per_page as nat) - 1
            } else {
                0
            },
    {
        let n = self.total_pages();
        if n > 0 {
            proof {
                self.lemma_page_fits((n - 1) as nat);
            }
        } else {
            assert(0 * self.items_per_page == 0);
        }
        self.current_page = n.saturating_sub(1);
    }
}

} // verus!
