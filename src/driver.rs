//! The editing session: one open raster and the chain of filters on it.
use vstd::prelude::*;
use crate::imgarray::{Raster, RasterView, raster_of};
use crate::filters::{Filter, Manipulate, SampleRule};
use crate::filters::compose::{Compose, ComposeView, ChainError, run_chain, lemma_render_from_cache, lemma_render_refreshes_cache, describe_chain};

verus! {

/// The state of an editing session.
pub struct Context {
    path: String,
    init_img: Raster,
    res_img: Raster,
    is_img_open: bool,
    filters_composed: Compose,
    is_running: bool,
}

impl Context {
    /// The chain's filters are well formed and the last render is valid for
    /// the open raster.
    pub closed spec fn wf(self) -> bool {
        &&& self.filters_composed@.wf()
        &&& self.filters_composed@.cache_valid(self.init_img@, self.res_img@)
    }

    /// The path of the open raster.
    pub closed spec fn path_spec(self) -> Seq<char> {
        self.path@
    }

    /// The raster as it was opened.
    pub closed spec fn image(self) -> RasterView {
        self.init_img@
    }

    /// The raster of the last render.
    pub closed spec fn result(self) -> RasterView {
        self.res_img@
    }

    pub closed spec fn open_spec(self) -> bool {
        self.is_img_open
    }

    pub closed spec fn running_spec(self) -> bool {
        self.is_running
    }

    /// The chain of filters.
    pub closed spec fn chain(self) -> ComposeView {
        self.filters_composed@
    }

    /// The state of a session with nothing open: empty path, blank rasters,
    /// an empty chain, running.
    pub open spec fn is_fresh(self) -> bool {
        &&& self.path_spec() == Seq::<char>::empty()
        &&& self.image() == raster_of(1, 1, |x: int, y: int, c: int| 0u8)
        &&& self.result() == raster_of(1, 1, |x: int, y: int, c: int| 0u8)
        &&& !self.open_spec()
        &&& self.chain() == (ComposeView { filters: Seq::empty(), cursor: 0 })
        &&& self.running_spec()
    }

    /// A session with nothing open.
    pub fn new() -> (r: Context)
        ensures
            r.is_fresh(),
            r.wf(),
    {
        Context {
            path: String::new(),
            init_img: Raster::blank(),
            res_img: Raster::blank(),
            is_img_open: false,
            filters_composed: Compose::new(Vec::new()),
            is_running: true,
        }
    }

    /// Closes the raster and drops the chain.
    pub fn clear(&mut self)
        ensures
            final(self).is_fresh(),
            final(self).wf(),
    {
        *self = Context::new();
    }

    /// Opens `img`, read from `path`, with an empty chain: filters made for
    /// another raster (a vignette's mask fits one size) do not carry over.
    pub fn open(&mut self, path: String, img: Raster)
        requires
            old(self).wf(),
        ensures
            final(self).wf(),
            final(self).path_spec() == path@,
            final(self).image() == img@,
            final(self).open_spec(),
            final(self).chain() == (ComposeView { filters: Seq::empty(), cursor: 0 }),
            final(self).result() == old(self).result(),
            final(self).running_spec() == old(self).running_spec(),
    {
        self.path = path;
        self.init_img = img;
        self.filters_composed = Compose::new(Vec::new());
        self.is_img_open = true;
    }

    /// Appends `filter` to the chain.
    pub fn add(&mut self, filter: Filter)
        requires
            old(self).wf(),
            filter.well_formed(),
        ensures
            final(self).wf(),
            final(self).chain() == old(self).chain().added(filter),
            final(self).image() == old(self).image(),
            final(self).result() == old(self).result(),
            final(self).path_spec() == old(self).path_spec(),
            final(self).open_spec() == old(self).open_spec(),
            final(self).running_spec() == old(self).running_spec(),
    {
        proof {
            let v = self.filters_composed@;
            assert(v.added(filter).filters.take(v.cursor as int) =~= v.filters.take(v.cursor as int));
        }
        self.filters_composed.add(filter);
    }

    /// Removes filter `index` from the chain; past its end it fails and
    /// changes nothing.
    pub fn remove(&mut self, index: usize) -> (r: Result<(), ChainError>)
        requires
            old(self).wf(),
        ensures
            final(self).wf(),
            index < old(self).chain().filters.len() ==> r is Ok && final(self).chain() == old(
                self,
            ).chain().removed(index as int),
            index >= old(self).chain().filters.len() ==> r is Err && final(self).chain() == old(
                self,
            ).chain(),
            final(self).image() == old(self).image(),
            final(self).result() == old(self).result(),
            final(self).path_spec() == old(self).path_spec(),
            final(self).open_spec() == old(self).open_spec(),
            final(self).running_spec() == old(self).running_spec(),
    {
        proof {
            let v = self.filters_composed@;
            if index < v.filters.len() && index >= v.cursor {
                assert(v.removed(index as int).filters.take(v.cursor as int) =~= v.filters.take(
                    v.cursor as int,
                ));
            }
        }
        self.filters_composed.remove(index)
    }

    /// Renders the chain: afterwards the result is the whole chain applied
    /// to the opened raster, whatever was rendered before.
    pub fn render(&mut self)
        requires
            old(self).wf(),
        ensures
            final(self).wf(),
            final(self).result() == run_chain(old(self).chain().filters, old(self).image()),
            final(self).chain() == old(self).chain().after_render(),
            final(self).image() == old(self).image(),
            final(self).open_spec() == old(self).open_spec(),
    {
        proof {
            lemma_render_from_cache(self.filters_composed@, self.init_img@, self.res_img@);
            lemma_render_refreshes_cache(self.filters_composed@, self.init_img@, self.res_img@);
        }
        let res = self.filters_composed.render(&self.init_img, &self.res_img);
        self.res_img = res;
    }

    /// The raster as it was opened.
    pub fn init_img(&self) -> (r: &Raster)
        ensures
            r@ == self.image(),
    {
        &self.init_img
    }

    /// The raster of the last render.
    pub fn result_img(&self) -> (r: &Raster)
        ensures
            r@ == self.result(),
    {
        &self.res_img
    }

    pub fn path(&self) -> (r: &String)
        ensures
            r@ == self.path_spec(),
    {
        &self.path
    }

    pub fn is_img_open(&self) -> (r: bool)
        ensures
            r == self.open_spec(),
    {
        self.is_img_open
    }

    pub fn is_running(&self) -> (r: bool)
        ensures
            r == self.running_spec(),
    {
        self.is_running
    }

    /// Ends the session.
    pub fn stop(&mut self)
        requires
            old(self).wf(),
        ensures
            final(self).wf(),
            !final(self).running_spec(),
            final(self).chain() == old(self).chain(),
    {
        self.is_running = false;
    }

    /// The number of filters in the chain.
    pub fn chain_len(&self) -> (r: usize)
        ensures
            r == self.chain().filters.len(),
    {
        self.filters_composed.len()
    }

    /// The listing of the chain.
    pub fn details_str(&self) -> (r: String)
        ensures
            r@ == describe_chain(self.chain()),
    {
        self.filters_composed.details_str()
    }
}

} // verus!
