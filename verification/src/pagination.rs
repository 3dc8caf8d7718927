//! Reading a table page by page.
//!
//! A scan of a table comes in pages. Each page holds items, some of which may
//! not be readable, and says where the next page starts, if there is one. The
//! scan keeps the readable items in their order and goes on until a page names
//! no successor.

use vstd::prelude::*;

verus! {

/// The readable items of a page, in their order.
pub open spec fn readable<T>(page: Seq<Option<T>>) -> Seq<T>
    decreases page.len(),
{
    if page.len() == 0 {
        Seq::empty()
    } else {
        match page.last() {
            Some(item) => readable(page.drop_last()).push(item),
            None => readable(page.drop_last()),
        }
    }
}

/// What to do after a page.
pub enum AfterPage<K> {
    /// Read the page that starts at the key.
    Continue(K),
    /// The table is read.
    Finish,
}

/// The items that a scan has gathered.
pub struct Scan<T> {
    pub items: Vec<T>,
}

impl<T> Scan<T> {
    /// The scan before its first page.
    pub fn new() -> (scan: Scan<T>)
        ensures
            scan.items@ == Seq::<T>::empty(),
    {
        Scan { items: Vec::new() }
    }

    /// Takes in one page: its readable items are added after those gathered
    /// so far, and the scan goes on exactly if the page names a successor.
    pub fn absorb<K>(&mut self, page: Vec<Option<T>>, last_evaluated_key: Option<K>) -> (next:
        AfterPage<K>)
        ensures
            final(self).items@ == old(self).items@ + readable(page@),
            next == match last_evaluated_key {
                Some(key) => AfterPage::Continue(key),
                None => AfterPage::<K>::Finish,
            },
    {
        let ghost whole = page@;
        let ghost before = self.items@;
        let mut page = page;
        let mut kept: Vec<T> = Vec::new();
        // The page is taken apart from its end, so the items come out in
        // reverse; they are put back in order below.
        while page.len() > 0
            invariant
                readable(whole) == readable(page@) + kept@.reverse(),
            decreases page.len(),
        {
            let ghost rest = page@;
            let ghost had = kept@;
            let last = page.pop();
            assert(page@ =~= rest.drop_last());
            match last {
                Some(Some(item)) => {
                    kept.push(item);
                    assert(kept@.reverse() =~= seq![item] + had.reverse());
                    assert(readable(rest) =~= readable(page@) + seq![item]);
                },
                _ => {
                    assert(readable(rest) == readable(page@));
                },
            }
        }
        assert(readable(page@) =~= Seq::<T>::empty());
        assert(readable(whole) =~= kept@.reverse());
        let ghost gathered = kept@;
        while kept.len() > 0
            invariant
                kept.len() <= gathered.len(),
                kept@ == gathered.take(kept.len() as int),
                self.items@ == before + gathered.reverse().take(gathered.len() - kept.len()),
            decreases kept.len(),
        {
            let ghost n = kept.len() as int;
            let item = kept.pop();
            assert(kept@ =~= gathered.take(n - 1));
            match item {
                Some(item) => {
                    assert(item == gathered[n - 1]);
                    self.items.push(item);
                    assert(gathered.reverse()[gathered.len() - n] == gathered[n - 1]);
                    assert(gathered.reverse().take(gathered.len() - n + 1) =~= gathered.reverse().take(
                        gathered.len() - n,
                    ).push(gathered[n - 1]));
                    assert(self.items@ =~= before + gathered.reverse().take(
                        gathered.len() - kept.len(),
                    ));
                },
                None => {},
            }
        }
        assert(gathered.reverse().take(gathered.len() as int) =~= gathered.reverse());
        match last_evaluated_key {
            Some(key) => AfterPage::Continue(key),
            None => AfterPage::Finish,
        }
    }
}

} // verus!
