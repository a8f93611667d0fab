use vstd::prelude::*;

verus! {

/// Loaded textures keyed by asset path. Each path is loaded at most once for
/// the cache's lifetime; a failed load is not remembered, so a later call
/// tries again.
pub struct TextureCache<H> {
    paths: Vec<String>,
    handles: Vec<H>,
}

impl<H> TextureCache<H> {
    /// The cached paths, in order of loading.
    pub closed spec fn paths(&self) -> Seq<Seq<char>> {
        self.paths@.map_values(|p: String| p@)
    }

    /// The cached handles; `handles()[i]` was loaded from `paths()[i]`.
    pub closed spec fn handles(&self) -> Seq<H> {
        self.handles@
    }

    /// One handle per path, and no path twice.
    pub open spec fn wf(&self) -> bool {
        &&& self.paths().len() == self.handles().len()
        &&& forall|i: int, j: int|
            0 <= i < j < self.paths().len() ==> #[trigger] self.paths()[i] != #[trigger] self.paths()[j]
    }

    pub fn new() -> (r: TextureCache<H>)
        ensures
            r.wf(),
            r.paths().len() == 0,
    {
        TextureCache { paths: Vec::new(), handles: Vec::new() }
    }

    pub fn len(&self) -> (r: usize)
        requires
            self.wf(),
        ensures
            r == self.paths().len(),
    {
        self.paths.len()
    }

    /// Where `path` sits in the cache, if it was loaded.
    pub fn find(&self, path: &String) -> (r: Option<usize>)
        requires
            self.wf(),
        ensures
            match r {
                Some(i) => i < self.paths().len() && self.paths()[i as int] == path@,
                None => !self.paths().contains(path@),
            },
    {
        let mut i: usize = 0;
        while i < self.paths.len()
            invariant
                self.wf(),
                i <= self.paths().len(),
                forall|j: int| 0 <= j < i ==> self.paths()[j] != path@,
            decreases self.paths().len() - i,
        {
            assert(self.paths()[i as int] == self.paths@[i as int]@);
            if self.paths[i] == *path {
                return Some(i);
            }
            i = i + 1;
        }
        None
    }

    /// The handle stored at `i`.
    pub fn get(&self, i: usize) -> (r: &H)
        requires
            self.wf(),
            i < self.paths().len(),
        ensures
            *r == self.handles()[i as int],
    {
        &self.handles[i]
    }

    /// The index of the handle for `path`: the cached one if `path` was loaded
    /// before, without calling `decode`; otherwise what `decode` gives, which
    /// is stored on success and dropped on failure.
    pub fn load<F: FnOnce(&String) -> Result<H, String>>(&mut self, path: &String, decode: F) -> (r: Result<
        usize,
        String,
    >)
        requires
            old(self).wf(),
            !old(self).paths().contains(path@) ==> decode.requires((path,)),
        ensures
            final(self).wf(),
            old(self).paths().contains(path@) ==> {
                &&& r matches Ok(i) && i < old(self).paths().len() && old(self).paths()[i as int] == path@
                &&& final(self).paths() == old(self).paths()
                &&& final(self).handles() == old(self).handles()
            },
            !old(self).paths().contains(path@) ==> match r {
                Ok(i) => {
                    &&& i == old(self).paths().len()
                    &&& final(self).paths() == old(self).paths().push(path@)
                    &&& final(self).handles().len() == i + 1
                    &&& final(self).handles().take(i as int) == old(self).handles()
                    &&& decode.ensures((path,), Ok::<H, String>(final(self).handles()[i as int]))
                },
                Err(e) => {
                    &&& final(self).paths() == old(self).paths()
                    &&& final(self).handles() == old(self).handles()
                    &&& decode.ensures((path,), Err::<H, String>(e))
                },
            },
    {
        match self.find(path) {
            Some(i) => Ok(i),
            None => {
                let loaded = decode(path);
                match loaded {
                    Ok(h) => {
                        let i = self.paths.len();
                        let ghost old_paths = self.paths();
                        let ghost old_handles = self.handles@;
                        self.paths.push(path.clone());
                        self.handles.push(h);
                        assert(self.paths() =~= old_paths.push(path@));
                        assert(self.handles@.take(i as int) =~= old_handles);
                        Ok(i)
                    },
                    Err(e) => Err(e),
                }
            },
        }
    }
}

} // verus!
