use vstd::prelude::*;

verus! {

/// The import routine of one kind of resource: it reads what `path` names and builds
/// the resource from it.
pub trait Importer<T> {
    fn import(&mut self, path: &str) -> T;
}

/// An importer together with the number of imports run through it. Only `import`,
/// which runs one, changes the count.
pub struct CountedImporter<I> {
    inner: I,
    imports: Ghost<nat>,
}

impl<I> CountedImporter<I> {
    /// How many imports have run through this importer.
    pub closed spec fn imports(&self) -> nat {
        self.imports@
    }

    pub closed spec fn spec_inner(&self) -> I {
        self.inner
    }

    pub fn new(inner: I) -> (r: Self)
        ensures
            r.imports() == 0,
            r.spec_inner() == inner,
    {
        CountedImporter { inner, imports: Ghost(0) }
    }

    pub fn inner(&self) -> (r: &I)
        ensures
            *r == self.spec_inner(),
    {
        &self.inner
    }

    /// Runs one import.
    pub fn import<T>(&mut self, path: &str) -> (r: T) where I: Importer<T>
        ensures
            final(self).imports() == old(self).imports() + 1,
    {
        let r = self.inner.import(path);
        self.imports = Ghost(self.imports@ + 1);
        r
    }
}

} // verus!
