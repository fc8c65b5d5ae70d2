use vstd::prelude::*;
use vstd::string::*;
use crate::imgarray::{Raster, RasterView};
use crate::filters::{Filter, Manipulate, SampleRule, rule_image};
use crate::text::{nat_decimal, nat_text};

verus! {

/// `img` under each filter of `fs` in turn.
pub open spec fn run_chain(fs: Seq<Filter>, img: RasterView) -> RasterView
    decreases fs.len(),
{
    if fs.len() == 0 {
        img
    } else {
        rule_image(fs.last(), run_chain(fs.drop_last(), img))
    }
}

/// A chain as a sequence of filters and a render cursor: the filters before
/// the cursor have been applied to the last rendered raster.
pub struct ComposeView {
    pub filters: Seq<Filter>,
    pub cursor: nat,
}

impl ComposeView {
    pub open spec fn wf(self) -> bool {
        &&& self.cursor <= self.filters.len()
        &&& forall|i: int| 0 <= i < self.filters.len() ==> #[trigger] self.filters[i].well_formed()
    }

    /// `cached` is the last render of the chain from `base`, or the cursor is
    /// 0 and nothing is cached.
    pub open spec fn cache_valid(self, base: RasterView, cached: RasterView) -> bool {
        self.cursor == 0 || cached == run_chain(self.filters.take(self.cursor as int), base)
    }

    /// The chain with `f` appended; the cursor stays.
    pub open spec fn added(self, f: Filter) -> ComposeView {
        ComposeView { filters: self.filters.push(f), cursor: self.cursor }
    }

    /// The chain without filter `i`; the cursor drops to 0 when that filter
    /// had already been applied.
    pub open spec fn removed(self, i: int) -> ComposeView {
        ComposeView {
            filters: self.filters.remove(i),
            cursor: if i < self.cursor {
                0
            } else {
                self.cursor
            },
        }
    }

    /// What a render returns: the whole chain on `base` at cursor 0, else the
    /// filters from the cursor on applied to `cached`.
    pub open spec fn rendered(self, base: RasterView, cached: RasterView) -> RasterView {
        if self.cursor == 0 {
            run_chain(self.filters, base)
        } else {
            run_chain(self.filters.skip(self.cursor as int), cached)
        }
    }

    /// The chain after a render: the cursor at its end.
    pub open spec fn after_render(self) -> ComposeView {
        ComposeView { filters: self.filters, cursor: self.filters.len() }
    }
}

/// The error of a removal at an index past the chain's end.
#[derive(Debug, Clone, Copy, PartialEq, Eq, Structural)]
pub enum ChainError {
    IndexOutOfBounds { index: usize, len: usize },
}

/// An ordered chain of filters with a render cursor that lets a render apply
/// only the filters appended since the last one.
pub struct Compose {
    filters: Vec<Filter>,
    rerender_index: usize,
}

impl View for Compose {
    type V = ComposeView;

    closed spec fn view(&self) -> ComposeView {
        ComposeView { filters: self.filters@, cursor: self.rerender_index as nat }
    }
}

proof fn lemma_run_chain_split(fs: Seq<Filter>, k: int, img: RasterView)
    requires
        0 <= k <= fs.len(),
    ensures
        run_chain(fs.skip(k), run_chain(fs.take(k), img)) == run_chain(fs, img),
    decreases fs.len(),
{
    if fs.len() == k {
        assert(fs.take(k) =~= fs);
        assert(fs.skip(k) =~= Seq::<Filter>::empty());
    } else {
        lemma_run_chain_split(fs.drop_last(), k, img);
        assert(fs.drop_last().take(k) =~= fs.take(k));
        assert(fs.skip(k).drop_last() =~= fs.drop_last().skip(k));
        assert(fs.skip(k).last() == fs.last());
    }
}

impl Compose {
    /// A chain of the given filters, with nothing rendered yet.
    pub fn new(filters_vec: Vec<Filter>) -> (r: Compose)
        ensures
            r@ == (ComposeView { filters: filters_vec@, cursor: 0 }),
    {
        Compose { filters: filters_vec, rerender_index: 0 }
    }

    /// Appends `filter` at the end; the cursor stays.
    pub fn add(&mut self, filter: Filter)
        ensures
            final(self)@ == old(self)@.added(filter),
    {
        self.filters.push(filter);
    }

    /// Removes the filter at `index`, and sends the cursor back to 0 when
    /// that filter had been rendered. Past the end it fails and changes
    /// nothing.
    pub fn remove(&mut self, index: usize) -> (r: Result<(), ChainError>)
        ensures
            index < old(self)@.filters.len() ==> r is Ok && final(self)@ == old(self)@.removed(
                index as int,
            ),
            index >= old(self)@.filters.len() ==> r == Err::<(), ChainError>(
                ChainError::IndexOutOfBounds { index, len: old(self)@.filters.len() as usize },
            ) && final(self)@ == old(self)@,
    {
        if index >= self.filters.len() {
            return Err(ChainError::IndexOutOfBounds { index, len: self.filters.len() });
        }
        self.filters.remove(index);
        if index < self.rerender_index {
            self.rerender_index = 0;
        }
        Ok(())
    }

    pub fn len(&self) -> (r: usize)
        ensures
            r == self@.filters.len(),
    {
        self.filters.len()
    }

    /// The render cursor.
    pub fn rerender_index(&self) -> (r: usize)
        ensures
            r == self@.cursor,
    {
        self.rerender_index
    }

    /// Applies the filters from the cursor on to `img`, in order, and moves
    /// the cursor to the end.
    pub fn apply(&mut self, img: &Raster) -> (r: Raster)
        requires
            old(self)@.wf(),
        ensures
            final(self)@ == old(self)@.after_render(),
            r@ == run_chain(old(self)@.filters.skip(old(self)@.cursor as int), img@),
    {
        let ghost fs = self.filters@;
        let start = self.rerender_index;
        let mut res = img.duplicate();
        let mut i: usize = start;
        assert(fs.subrange(start as int, start as int) =~= Seq::<Filter>::empty());
        while i < self.filters.len()
            invariant
                self.filters@ == fs,
                start <= i <= fs.len(),
                forall|k: int| 0 <= k < fs.len() ==> #[trigger] fs[k].well_formed(),
                res@ == run_chain(fs.subrange(start as int, i as int), img@),
            decreases fs.len() - i,
        {
            assert(fs[i as int].well_formed());
            res = self.filters[i].apply(&res);
            assert(fs.subrange(start as int, i as int + 1).drop_last() =~= fs.subrange(start as int, i as int));
            i += 1;
        }
        assert(fs.subrange(start as int, fs.len() as int) =~= fs.skip(start as int));
        self.rerender_index = self.filters.len();
        res
    }

    /// Renders the chain: the whole chain on `base` when the cursor is 0,
    /// else the filters from the cursor on applied to `cached`, the last
    /// render. The cursor moves to the end.
    pub fn render(&mut self, base: &Raster, cached: &Raster) -> (r: Raster)
        requires
            old(self)@.wf(),
        ensures
            final(self)@ == old(self)@.after_render(),
            r@ == old(self)@.rendered(base@, cached@),
            old(self)@.cache_valid(base@, cached@) ==> r@ == run_chain(old(self)@.filters, base@),
    {
        proof {
            lemma_run_chain_split(self@.filters, self@.cursor as int, base@);
            assert(self@.filters.skip(0) =~= self@.filters);
        }
        if self.rerender_index == 0 {
            self.apply(base)
        } else {
            self.apply(cached)
        }
    }
}

/// The filters before the cursor applied to `base`, then those from the
/// cursor on: the whole chain. A render from a valid cache is a full render.
pub proof fn lemma_render_from_cache(v: ComposeView, base: RasterView, cached: RasterView)
    requires
        v.cursor <= v.filters.len(),
        v.cache_valid(base, cached),
    ensures
        v.rendered(base, cached) == run_chain(v.filters, base),
{
    lemma_run_chain_split(v.filters, v.cursor as int, base);
    assert(v.filters.skip(0) =~= v.filters);
}

/// A render leaves a valid cache behind: the rendered raster for the chain
/// with the cursor at its end.
pub proof fn lemma_render_refreshes_cache(v: ComposeView, base: RasterView, cached: RasterView)
    requires
        v.cursor <= v.filters.len(),
        v.cache_valid(base, cached),
    ensures
        v.after_render().cache_valid(base, v.rendered(base, cached)),
{
    lemma_render_from_cache(v, base, cached);
    assert(v.filters.take(v.filters.len() as int) =~= v.filters);
}

/// `v` with the filters of `extra` appended one after another.
pub open spec fn add_all(v: ComposeView, extra: Seq<Filter>) -> ComposeView
    decreases extra.len(),
{
    if extra.len() == 0 {
        v
    } else {
        add_all(v.added(extra[0]), extra.skip(1))
    }
}

/// The raster of the last render when each filter of `extra` is appended to
/// `v` and the chain rendered right after, from the previous render.
pub open spec fn render_each(v: ComposeView, extra: Seq<Filter>, base: RasterView, cached: RasterView) -> RasterView
    decreases extra.len(),
{
    if extra.len() == 0 {
        cached
    } else {
        let next = v.added(extra[0]);
        render_each(next.after_render(), extra.skip(1), base, next.rendered(base, cached))
    }
}

proof fn lemma_add_all(v: ComposeView, extra: Seq<Filter>)
    ensures
        add_all(v, extra) == (ComposeView { filters: v.filters + extra, cursor: v.cursor }),
    decreases extra.len(),
{
    if extra.len() == 0 {
        assert(v.filters + extra =~= v.filters);
    } else {
        lemma_add_all(v.added(extra[0]), extra.skip(1));
        assert(v.filters.push(extra[0]) + extra.skip(1) =~= v.filters + extra);
    }
}

proof fn lemma_render_each(v: ComposeView, extra: Seq<Filter>, base: RasterView, cached: RasterView)
    requires
        v.cursor <= v.filters.len(),
        v.cache_valid(base, cached),
        extra.len() > 0,
    ensures
        render_each(v, extra, base, cached) == run_chain(v.filters + extra, base),
    decreases extra.len(),
{
    let next = v.added(extra[0]);
    assert(next.filters.take(next.cursor as int) =~= v.filters.take(v.cursor as int));
    lemma_render_from_cache(next, base, cached);
    lemma_render_refreshes_cache(next, base, cached);
    if extra.len() == 1 {
        assert(extra.skip(1).len() == 0);
        assert(render_each(next.after_render(), extra.skip(1), base, next.rendered(base, cached))
            == next.rendered(base, cached));
        assert(v.filters.push(extra[0]) =~= v.filters + extra);
    } else {
        lemma_render_each(next.after_render(), extra.skip(1), base, next.rendered(base, cached));
        assert(v.filters.push(extra[0]) + extra.skip(1) =~= v.filters + extra);
    }
}

/// Appending several filters and rendering once gives the same raster as
/// rendering after each append: the cursor saves work, it never changes a
/// result.
pub proof fn lemma_batch_render_equals_stepwise(
    v: ComposeView,
    extra: Seq<Filter>,
    base: RasterView,
    cached: RasterView,
)
    requires
        v.cursor <= v.filters.len(),
        v.cache_valid(base, cached),
        extra.len() > 0,
    ensures
        add_all(v, extra).rendered(base, cached) == render_each(v, extra, base, cached),
        render_each(v, extra, base, cached) == run_chain(v.filters + extra, base),
{
    lemma_add_all(v, extra);
    let all = add_all(v, extra);
    assert(all.filters.take(all.cursor as int) =~= v.filters.take(v.cursor as int));
    lemma_render_from_cache(all, base, cached);
    lemma_render_each(v, extra, base, cached);
}

/// Removing a filter that had been rendered, then rendering, gives the chain
/// that never held that filter, applied to the base raster.
pub proof fn lemma_remove_rendered_then_render(v: ComposeView, i: int, base: RasterView, cached: RasterView)
    requires
        0 <= i < v.cursor,
        v.cursor <= v.filters.len(),
    ensures
        v.removed(i).rendered(base, cached) == run_chain(v.filters.remove(i), base),
{
}

/// Removing a filter that had not been rendered keeps a valid cache valid, so
/// the next render is again the whole remaining chain on the base raster.
pub proof fn lemma_remove_pending_then_render(v: ComposeView, i: int, base: RasterView, cached: RasterView)
    requires
        v.cursor <= i < v.filters.len(),
        v.cache_valid(base, cached),
    ensures
        v.removed(i).cache_valid(base, cached),
        v.removed(i).rendered(base, cached) == run_chain(v.filters.remove(i), base),
{
    let after = v.removed(i);
    assert(after.filters.take(after.cursor as int) =~= v.filters.take(v.cursor as int));
    lemma_render_from_cache(after, base, cached);
}

/// Line `i` of a listing: the index, a space, and the filter's description.
pub open spec fn listing_line(fs: Seq<Filter>, i: int) -> Seq<char> {
    nat_text(i as nat) + " "@ + fs[i].describe()
}

/// The first `n` lines of a listing, joined by line breaks.
pub open spec fn listing(fs: Seq<Filter>, n: int) -> Seq<char>
    decreases n,
{
    if n <= 0 {
        Seq::empty()
    } else if n == 1 {
        listing_line(fs, 0)
    } else {
        listing(fs, n - 1) + "\n"@ + listing_line(fs, n - 1)
    }
}

/// The listing of a chain, one indexed line per filter, or a note that it is
/// empty.
pub open spec fn describe_chain(v: ComposeView) -> Seq<char> {
    if v.filters.len() == 0 {
        "No filters applied yet."@
    } else {
        listing(v.filters, v.filters.len() as int)
    }
}

impl Compose {
    pub open spec fn describe(self) -> Seq<char> {
        describe_chain(self@)
    }

    pub fn details_str(&self) -> (r: String)
        ensures
            r@ == self.describe(),
    {
        if self.filters.len() == 0 {
            return "No filters applied yet.".to_owned();
        }
        let mut out = String::new();
        let mut i: usize = 0;
        while i < self.filters.len()
            invariant
                i <= self.filters.len(),
                out@ == listing(self@.filters, i as int),
            decreases self.filters.len() - i,
        {
            let line = nat_decimal(i as u64).concat(" ").concat(self.filters[i].details_str().as_str());
            if i == 0 {
                out = line;
            } else {
                out = out.concat("\n").concat(line.as_str());
            }
            i += 1;
        }
        out
    }
}

} // verus!
