//! A list browsed page by page, whose next page can be fetched ahead of time.
use vstd::prelude::*;
use std::sync::Arc;

verus! {

/// Something that can fetch a page of items: `step` items from `offset` on,
/// with the total number of items it expects.
pub trait AsyncLoader {
    type Data;
    type Error;

    /// Fetches `step` items from `offset` on, and the expected total.
    fn data(&self, step: usize, offset: usize) -> Result<(Vec<Self::Data>, usize), Self::Error>;

    /// Called with an item that the user is likely to pick.
    fn item(&self, _data: Arc<Self::Data>) {
    }
}

/// The value of what a fetch gave: the items and the total.
pub open spec fn fetched_view<D, E>(f: Result<(Vec<D>, usize), E>) -> Result<(Seq<D>, nat), E> {
    match f {
        Ok((d, t)) => Ok((d@, t as nat)),
        Err(e) => Err(e),
    }
}

/// The value of what a fetch may have given.
pub open spec fn opt_fetched_view<D, E>(f: Option<Result<(Vec<D>, usize), E>>) -> Option<Result<(Seq<D>, nat), E>> {
    match f {
        Some(r) => Some(fetched_view(r)),
        None => None,
    }
}

/// The state of the fetch of the page after the last one.
pub enum Preload<D, E> {
    /// No fetch was started.
    Idle,
    /// A fetch of `step` items from `offset` on was handed out.
    Pending(usize, usize),
    /// The result of that fetch came back.
    Ready(Result<(Vec<D>, usize), E>),
}

/// What a [`PreloadableList`] holds, as mathematical values.
pub struct ListView<D, E> {
    /// The pages fetched so far, in order.
    pub pages: Seq<Seq<Arc<D>>>,
    /// The page shown.
    pub current: nat,
    /// The number of items before the page shown.
    pub offset: nat,
    /// The number of items asked for each page.
    pub step: nat,
    /// The total that the last fetch announced.
    pub total: nat,
    /// The fetch handed out ahead of time, if any: `(step, offset)`.
    pub pending: Option<(nat, nat)>,
    /// The result of that fetch, kept once it came back.
    pub ready: Option<Result<(Seq<D>, nat), E>>,
}

/// The number of items of the pages.
pub open spec fn total_len<A>(pages: Seq<Seq<A>>) -> nat
    decreases pages.len(),
{
    if pages.len() == 0 {
        0
    } else {
        total_len(pages.drop_last()) + pages.last().len()
    }
}

/// Where `try_next` moves to: the page after the current one, `offset` moved
/// past the current page; nothing moves while no page was fetched.
pub open spec fn forward<D, E>(v: ListView<D, E>) -> (nat, nat) {
    if v.pages.len() > 0 {
        (v.current + 1, v.offset + v.pages[v.current as int].len())
    } else {
        (v.current, v.offset)
    }
}

/// The view after `prev`: the page before the current one (the first page stays).
pub open spec fn back<D, E>(v: ListView<D, E>) -> ListView<D, E> {
    if v.current >= 1 {
        ListView {
            current: (v.current - 1) as nat,
            offset: total_len(v.pages.take(v.current - 1)),
            ..v
        }
    } else {
        v
    }
}


/// The state that every list keeps: `current` is a page fetched or just after
/// the last one, and `offset` counts the items of the pages before it.
pub open spec fn consistent<D, E>(v: ListView<D, E>) -> bool {
    &&& v.current <= v.pages.len()
    &&& v.offset == total_len(v.pages.take(v.current as int))
}

/// The view after moving past the current page.
pub open spec fn moved<D, E>(v: ListView<D, E>) -> ListView<D, E> {
    ListView { current: forward(v).0, offset: forward(v).1, ..v }
}

/// The view once a fetched page is kept, with the total it announced.
pub open spec fn received<D, E>(v: ListView<D, E>, page: Seq<Arc<D>>, total: nat) -> ListView<D, E> {
    ListView { pages: v.pages.push(page), total: total, ..v }
}

/// The view once the fetch of the page after the last one is handed out.
pub open spec fn preloading<D, E>(v: ListView<D, E>) -> ListView<D, E> {
    ListView { pending: Some((v.step, total_len(v.pages))), ..v }
}

/// The view once the result `res` of that fetch came back: it is kept.
pub open spec fn preloaded<D, E>(v: ListView<D, E>, res: Result<(Seq<D>, nat), E>) -> ListView<D, E> {
    ListView { pending: None, ready: Some(res), ..v }
}

/// The items of a fetched page, each in its own `Arc`.
pub open spec fn arcs<D>(s: Seq<D>) -> Seq<Arc<D>> {
    s.map_values(|d: D| Arc::new(d))
}

/// The view with no fetch handed out and no result kept.
pub open spec fn cleared<D, E>(v: ListView<D, E>) -> ListView<D, E> {
    ListView { pending: None, ready: None, ..v }
}

/// The fetch that `try_next` makes itself: `(step, offset)`, `offset` being
/// where it moves to, when it needs a page and no result was kept.
pub open spec fn next_request_of<D, E>(v: ListView<D, E>) -> Option<(nat, nat)> {
    if needs_fetch(v) && v.ready is None {
        Some((v.step, forward(v).1))
    } else {
        None
    }
}

/// The result that `try_next` uses when it needs a page: the one kept, else
/// what its own fetch gave.
pub open spec fn used_result<D, E>(v: ListView<D, E>, fetched: Option<Result<(Seq<D>, nat), E>>) -> Result<(Seq<D>, nat), E> {
    match v.ready {
        Some(res) => res,
        None => fetched->0,
    }
}

/// The view after `try_next`: moved past the current page; when it needed a
/// page, with no fetch nor result kept, and the page used kept with its total.
pub open spec fn next_view<D, E>(v: ListView<D, E>, fetched: Option<Result<(Seq<D>, nat), E>>) -> ListView<D, E> {
    if !needs_fetch(v) {
        moved(v)
    } else {
        match used_result(v, fetched) {
            Ok((d, t)) => received(cleared(moved(v)), arcs(d), t),
            Err(_) => cleared(moved(v)),
        }
    }
}

/// What `try_next` gives: the page it moves to, or the error of the result used.
pub open spec fn next_page<D, E>(v: ListView<D, E>, fetched: Option<Result<(Seq<D>, nat), E>>) -> Result<Seq<Arc<D>>, E> {
    if !needs_fetch(v) {
        Ok(v.pages[forward(v).0 as int])
    } else {
        match used_result(v, fetched) {
            Ok((d, _)) => Ok(arcs(d)),
            Err(e) => Err(e),
        }
    }
}

/// `after` and `page` are what `try_next` makes of `v`: with the answer
/// `res` to the request `next_request_of(v)` when it makes one, whatever the
/// loader answered.
pub open spec fn next_step<D, E>(v: ListView<D, E>, after: ListView<D, E>, page: Result<Seq<Arc<D>>, E>) -> bool {
    match next_request_of(v) {
        None => after == next_view(v, None) && page == next_page(v, None),
        Some(_) => exists|res: Result<(Seq<D>, nat), E>|
            after == #[trigger] next_view(v, Some(res)) && page == next_page(v, Some(res)),
    }
}

/// The value of the page that `try_next` gives.
pub open spec fn page_of<D, E>(r: Result<&[Arc<D>], E>) -> Result<Seq<Arc<D>>, E> {
    match r {
        Ok(p) => Ok(p@),
        Err(e) => Err(e),
    }
}

/// A result without its page.
pub open spec fn done_of<A, E>(r: Result<A, E>) -> Result<(), E> {
    match r {
        Ok(_) => Ok(()),
        Err(e) => Err(e),
    }
}

/// The view with another number of items per page.
pub open spec fn with_step<D, E>(v: ListView<D, E>, step: nat) -> ListView<D, E> {
    ListView { step: step, ..v }
}

/// `try_next` needs to fetch a page: none was fetched past the current one.
pub open spec fn needs_fetch<D, E>(v: ListView<D, E>) -> bool {
    forward(v).0 >= v.pages.len()
}

/// `preload_next` hands out a fetch: the current page is the last one and
/// no fetch was handed out.
pub open spec fn should_preload<D, E>(v: ListView<D, E>) -> bool {
    v.current + 1 >= v.pages.len() && v.pending is None && v.ready is None
}

/// A list browsed page by page.
pub struct PreloadableList<L: AsyncLoader> {
    loaded: Vec<Vec<Arc<L::Data>>>,
    loading: Preload<L::Data, L::Error>,
    loader: Arc<L>,
    current: usize,
    offset: usize,
    step: usize,
    total: usize,
}

impl<L: AsyncLoader> View for PreloadableList<L> {
    type V = ListView<L::Data, L::Error>;

    closed spec fn view(&self) -> ListView<L::Data, L::Error> {
        ListView {
            pages: self.loaded@.map_values(|p: Vec<Arc<L::Data>>| p@),
            current: self.current as nat,
            offset: self.offset as nat,
            step: self.step as nat,
            total: self.total as nat,
            pending: match self.loading {
                Preload::Idle => None,
                Preload::Pending(s, o) => Some((s as nat, o as nat)),
                Preload::Ready(_) => None,
            },
            ready: match self.loading {
                Preload::Ready(res) => Some(fetched_view(res)),
                _ => None,
            },
        }
    }
}

/// The items before page `i + 1` are those before page `i` and page `i`.
pub proof fn lemma_total_len_take<A>(pages: Seq<Seq<A>>, i: int)
    requires
        0 <= i < pages.len(),
    ensures
        total_len(pages.take(i + 1)) == total_len(pages.take(i)) + pages[i].len(),
{
    assert(pages.take(i + 1).drop_last() =~= pages.take(i));
}

impl<L: AsyncLoader> PreloadableList<L> {
    /// An empty list that fetches `step` items at a time.
    pub fn new(loader: L, step: usize) -> (r: PreloadableList<L>)
        ensures
            consistent(r@),
            r@.pages.len() == 0,
            r@.current == 0,
            r@.offset == 0,
            r@.step == step,
            r@.total == 0,
            (r@.pending is None),
            (r@.ready is None),
            r.loader_value() == loader,
    {
        let r = PreloadableList {
            loaded: Vec::new(),
            loading: Preload::Idle,
            loader: Arc::new(loader),
            current: 0,
            offset: 0,
            step,
            total: 0,
        };
        assert(r@.pages.take(0) =~= Seq::<Seq<Arc<L::Data>>>::empty());
        r
    }

    /// The fetch that `try_next` makes itself, if any: `step` items from the
    /// offset it moves to, when no page past the current one was fetched and
    /// no preloaded result is kept.
    pub fn next_request(&self) -> (r: Option<(usize, usize)>)
        requires
            consistent(self@),
            self@.pages.len() == 0 || self@.current < self@.pages.len(),
            forward(self@).1 <= usize::MAX,
        ensures
            r == (match next_request_of(self@) {
                Some((s, o)) => Some((s as usize, o as usize)),
                None => None,
            }),
    {
        let kept = match self.loading {
            Preload::Ready(_) => true,
            _ => false,
        };
        if kept {
            return None;
        }
        if self.loaded.is_empty() {
            Some((self.step, self.offset))
        } else {
            proof {
                assert(self@.pages[self.current as int] == self.loaded@[self.current as int]@);
            }
            if self.current < self.loaded.len() - 1 {
                None
            } else {
                Some((self.step, self.offset + self.loaded[self.current].len()))
            }
        }
    }

    /// Moves past the current page; when no page past it was fetched, keeps
    /// the preloaded result if there is one, else `fetched`, what the fetch
    /// asked by `next_request` gave, and gives the page or the error.
    pub fn try_next_with(&mut self, fetched: Option<Result<(Vec<L::Data>, usize), L::Error>>) -> (r: Result<
        &[Arc<L::Data>],
        L::Error,
    >)
        requires
            consistent(old(self)@),
            old(self)@.pages.len() == 0 || old(self)@.current < old(self)@.pages.len(),
            forward(old(self)@).1 <= usize::MAX,
            next_request_of(old(self)@) is Some ==> fetched is Some,
        ensures
            consistent(final(self)@),
            final(self)@ == next_view(old(self)@, opt_fetched_view(fetched)),
            page_of(r) == next_page(old(self)@, opt_fetched_view(fetched)),
            (r is Ok) ==> final(self)@.current < final(self)@.pages.len(),
            final(self).loader_value() == old(self).loader_value(),
    {
        self.step_forward();
        if self.loaded.len() <= self.current {
            let mut loading = Preload::Idle;
            std::mem::swap(&mut loading, &mut self.loading);
            let res = match loading {
                Preload::Ready(res) => res,
                _ => fetched.unwrap(),
            };
            let ghost used = fetched_view(res);
            assert(used == used_result(old(self)@, opt_fetched_view(fetched)));
            assert(self@ == cleared(moved(old(self)@)));
            match self.receive(res) {
                Ok(()) => {},
                Err(e) => {
                    return Err(e);
                },
            }
            proof {
                assert(self@.pages[self.current as int] == self.loaded@[self.current as int]@);
            }
        } else {
            proof {
                assert(self@.pages[self.current as int] == self.loaded@[self.current as int]@);
            }
        }
        Ok(self.loaded[self.current].as_slice())
    }

    /// Moves past the current page; when no page past it was fetched, uses the
    /// preloaded result if there is one, else asks the loader for the request
    /// that `next_request` gives (`step` items from the offset it moves to),
    /// and keeps the page that came back.
    pub fn try_next(&mut self) -> (r: Result<&[Arc<L::Data>], L::Error>)
        requires
            consistent(old(self)@),
            old(self)@.pages.len() == 0 || old(self)@.current < old(self)@.pages.len(),
            forward(old(self)@).1 <= usize::MAX,
        ensures
            consistent(final(self)@),
            next_step(old(self)@, final(self)@, page_of(r)),
            (r is Ok) ==> final(self)@.current < final(self)@.pages.len(),
            final(self).loader_value() == old(self).loader_value(),
    {
        let req = self.next_request();
        let fetched = match req {
            Some((s, o)) => {
                let res = self.loader.data(s, o);
                Some(res)
            },
            None => None,
        };
        let ghost f = opt_fetched_view(fetched);
        assert(next_request_of(old(self)@) is Some ==> f == Some(f->0));
        self.try_next_with(fetched)
    }

    /// Moves past the current page, as `try_next` does before it fetches.
    fn step_forward(&mut self)
        requires
            consistent(old(self)@),
            old(self)@.pages.len() == 0 || old(self)@.current < old(self)@.pages.len(),
            forward(old(self)@).1 <= usize::MAX,
        ensures
            final(self)@ == moved(old(self)@),
            consistent(final(self)@),
            final(self).loader == old(self).loader,
    {
        if !self.loaded.is_empty() {
            proof {
                lemma_total_len_take(self@.pages, self.current as int);
                assert(self@.pages[self.current as int] == self.loaded@[self.current as int]@);
            }
            assert(self@.pages.len() == self.loaded.len());
            let n = self.loaded[self.current].len();
            self.offset = self.offset + n;
            self.current = self.current + 1;
        }
    }

    /// Keeps a page that came back from a fetch, with the total it announced;
    /// an error leaves the pages as they are.
    pub fn receive(&mut self, fetched: Result<(Vec<L::Data>, usize), L::Error>) -> (r: Result<
        (),
        L::Error,
    >)
        requires
            consistent(old(self)@),
        ensures
            (match fetched {
                Ok((data, total)) => {
                    &&& (r is Ok)
                    &&& consistent(final(self)@)
                    &&& final(self)@ == received(old(self)@, arcs(data@), total as nat)
                },
                Err(e) => {
                    &&& r == Err::<(), L::Error>(e)
                    &&& final(self)@ == old(self)@
                },
            }),
            final(self).loader_value() == old(self).loader_value(),
    {
        match fetched {
            Ok((data, total)) => {
                let mut page: Vec<Arc<L::Data>> = Vec::new();
                let ghost all = data@;
                for d in iter: data.into_iter()
                    invariant
                        iter.seq() == all,
                        page@ == all.take(iter.index() as int).map_values(|d: L::Data| Arc::new(d)),
                {
                    let a = Arc::new(d);
                    proof {
                        assert(all.take(iter.index() + 1) =~= all.take(iter.index() as int).push(d));
                    }
                    page.push(a);
                    assert(page@ =~= all.take(iter.index() + 1).map_values(|d: L::Data| Arc::new(d)));
                }
                assert(all.take(all.len() as int) =~= all);
                let ghost before = self@.pages;
                self.loaded.push(page);
                self.total = total;
                proof {
                    assert(self@.pages =~= before.push(all.map_values(|d: L::Data| Arc::new(d))));
                    assert(self@.pages.take(self.current as int) =~= before.take(self.current as int));
                }
                Ok(())
            },
            Err(e) => Err(e),
        }
    }

    /// Moves to the previous page (the first page stays) and gives it.
    pub fn prev(&mut self) -> (r: &Vec<Arc<L::Data>>)
        requires
            consistent(old(self)@),
            old(self)@.current >= 1 || old(self)@.pages.len() > 0,
        ensures
            consistent(final(self)@),
            final(self)@ == back(old(self)@),
            final(self)@.current < final(self)@.pages.len(),
            r@ == final(self)@.pages[final(self)@.current as int],
    {
        if self.current >= 1 {
            self.current = self.current - 1;
            proof {
                lemma_total_len_take(self@.pages, self.current as int);
                assert(self@.pages[self.current as int] == self.loaded@[self.current as int]@);
            }
            let n = self.loaded[self.current].len();
            self.offset = self.offset - n;
        }
        &self.loaded[self.current]
    }

    /// Hands out the fetch of the page after the last one, when the current
    /// page is the last one and no fetch was handed out: `step` items after
    /// all those fetched. The caller gives its result back with `set_preloaded`.
    pub fn preload_next(&mut self) -> (r: Option<(usize, usize)>)
        requires
            consistent(old(self)@),
            old(self)@.current < old(self)@.pages.len(),
            total_len(old(self)@.pages) <= usize::MAX,
        ensures
            consistent(final(self)@),
            should_preload(old(self)@) ==> r == Some((old(self)@.step as usize, total_len(old(self)@.pages) as usize)),
            should_preload(old(self)@) ==> final(self)@ == preloading(old(self)@),
            !should_preload(old(self)@) ==> (r is None),
            !should_preload(old(self)@) ==> final(self)@ == old(self)@,
    {
        let idle = match self.loading {
            Preload::Idle => true,
            _ => false,
        };
        if self.loaded.len() <= self.current + 1 && idle {
            proof {
                assert(self@.pages.take(self.current + 1 as int) =~= self@.pages);
                lemma_total_len_take(self@.pages, self.current as int);
                assert(self@.pages[self.current as int] == self.loaded@[self.current as int]@);
            }
            let offset = self.offset + self.loaded[self.current].len();
            self.loading = Preload::Pending(self.step, offset);
            Some((self.step, offset))
        } else {
            None
        }
    }

    /// Keeps the result of the fetch handed out by `preload_next`, for the
    /// next `try_next` that needs a page.
    pub fn set_preloaded(&mut self, fetched: Result<(Vec<L::Data>, usize), L::Error>)
        requires
            (old(self)@.pending is Some),
        ensures
            final(self)@ == preloaded(old(self)@, fetched_view(fetched)),
    {
        self.loading = Preload::Ready(fetched);
    }

    /// Is a fetch handed out by `preload_next` still without its result?
    pub fn has_pending(&self) -> (r: bool)
        ensures
            r == (self@.pending is Some),
    {
        match self.loading {
            Preload::Pending(_, _) => true,
            _ => false,
        }
    }

    /// The loader that fetches the pages.
    pub closed spec fn loader_value(&self) -> L {
        *self.loader
    }

    /// The loader.
    pub fn loader(&self) -> (r: &L)
        ensures
            *r == self.loader_value(),
    {
        &self.loader
    }

    /// Hands item `id` of the current page to the loader's `item`.
    pub fn preload_id(&self, id: usize)
        requires
            consistent(self@),
            self@.current < self@.pages.len(),
            id < self@.pages[self@.current as int].len(),
    {
        proof {
            assert(self@.pages[self@.current as int] == self.loaded@[self.current as int]@);
        }
        let data_cloned = Arc::clone(&self.loaded[self.current][id]);
        self.loader.item(data_cloned);
    }

    /// The current page.
    pub fn current(&self) -> (r: &[Arc<L::Data>])
        requires
            self@.current < self@.pages.len(),
        ensures
            r@ == self@.pages[self@.current as int],
    {
        self.loaded[self.current].as_slice()
    }

    /// The number of items of the current page.
    pub fn current_len(&self) -> (r: usize)
        requires
            self@.current < self@.pages.len(),
        ensures
            r == self@.pages[self@.current as int].len(),
    {
        self.current().len()
    }

    /// The total that the last fetch announced.
    pub fn expected_total(&self) -> (r: usize)
        ensures
            r == self@.total,
    {
        self.total
    }

    /// The number of items asked for each page.
    pub fn step(&self) -> (r: usize)
        ensures
            r == self@.step,
    {
        self.step
    }

    /// Sets the number of items asked for each page.
    pub fn set_step(&mut self, step: usize)
        ensures
            final(self)@ == with_step(old(self)@, step as nat),
    {
        self.step = step;
    }

    /// The number of items before the current page.
    pub fn offset(&self) -> (r: usize)
        ensures
            r == self@.offset,
    {
        self.offset
    }

    /// Fetches the first page when none was fetched, as `try_next` does.
    pub fn ensure_init(&mut self) -> (r: Result<(), L::Error>)
        requires
            consistent(old(self)@),
            old(self)@.pages.len() == 0 || old(self)@.current < old(self)@.pages.len(),
        ensures
            consistent(final(self)@),
            old(self)@.pages.len() > 0 ==> (r is Ok),
            old(self)@.pages.len() > 0 ==> final(self)@ == old(self)@,
            old(self)@.pages.len() == 0 ==> exists|p: Result<Seq<Arc<L::Data>>, L::Error>|
                #[trigger] next_step(old(self)@, final(self)@, p) && r == done_of(p),
            (r is Ok) ==> final(self)@.current < final(self)@.pages.len(),
    {
        if self.loaded.is_empty() {
            proof {
                assert(old(self)@.pages.take(0) =~= Seq::<Seq<Arc<L::Data>>>::empty());
            }
            let res = self.try_next();
            let ghost p = page_of(res);
            match res {
                Ok(_) => Ok(()),
                Err(e) => Err(e),
            }
        } else {
            Ok(())
        }
    }
}

/// Going back after moving forward returns to the same page and offset.
pub proof fn lemma_prev_undoes_next<D, E>(before: ListView<D, E>, after: ListView<D, E>)
    requires
        before.current < before.pages.len(),
        before.offset == total_len(before.pages.take(before.current as int)),
        after.current == forward(before).0,
        after.offset == forward(before).1,
        before.pages.is_prefix_of(after.pages),
    ensures
        back(after).current == before.current,
        back(after).offset == before.offset,
{
    assert(after.pages.take(before.current as int) =~= before.pages.take(before.current as int));
}

/// The fetch handed out ahead of time asks for the items that the next
/// `try_next` needs: `step` items from the offset it moves to.
pub proof fn lemma_preload_matches_next<D, E>(v: ListView<D, E>)
    requires
        v.current + 1 == v.pages.len(),
        v.offset == total_len(v.pages.take(v.current as int)),
    ensures
        forward(v).1 == total_len(v.pages),
        forward(v).0 == v.pages.len(),
{
    lemma_total_len_take(v.pages, v.current as int);
    assert(v.pages.take(v.current + 1 as int) =~= v.pages);
}


/// Going back, then forward again, fetches nothing and gives back the page
/// and offset left; on the first page, going back changes nothing.
pub proof fn lemma_next_after_prev<D, E>(v: ListView<D, E>)
    requires
        consistent(v),
        v.current < v.pages.len(),
    ensures
        v.current == 0 ==> back(v) == v,
        v.current >= 1 ==> next_request_of(back(v)) is None,
        v.current >= 1 ==> next_view(back(v), None) == v,
        v.current >= 1 ==> next_page(back(v), None) == Ok::<Seq<Arc<D>>, E>(v.pages[v.current as int]),
{
    if v.current >= 1 {
        lemma_total_len_take(v.pages, v.current - 1);
    }
}

} // verus!
