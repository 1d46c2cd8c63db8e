use vstd::prelude::*;

verus! {

/// The environment after making one package available: a package that is
/// already there leaves it as it is, another one joins at the end.
pub open spec fn add_package(env: Seq<Seq<char>>, package: Seq<char>) -> Seq<Seq<char>> {
    if env.contains(package) {
        env
    } else {
        env.push(package)
    }
}

/// The environment after making each of `packages` available, in order.
pub open spec fn ensure_spec(env: Seq<Seq<char>>, packages: Seq<Seq<char>>) -> Seq<Seq<char>>
    decreases packages.len(),
{
    if packages.len() == 0 {
        env
    } else {
        add_package(ensure_spec(env, packages.drop_last()), packages.last())
    }
}

/// The installed packages of an isolated execution context, each once, in the
/// order in which they were first requested.
pub struct Environment {
    packages: Vec<String>,
}

impl View for Environment {
    type V = Seq<Seq<char>>;

    closed spec fn view(&self) -> Seq<Seq<char>> {
        Seq::new(self.packages@.len(), |i: int| self.packages@[i]@)
    }
}

impl Environment {
    /// No package is listed twice.
    pub open spec fn wf(&self) -> bool {
        self@.no_duplicates()
    }

    /// A clean environment, with nothing installed.
    pub fn new() -> (e: Environment)
        ensures
            e@ == Seq::<Seq<char>>::empty(),
            e.wf(),
    {
        let e = Environment { packages: Vec::new() };
        assert(e@ =~= Seq::<Seq<char>>::empty());
        e
    }

    /// Whether `package` is installed.
    pub fn contains(&self, package: &String) -> (r: bool)
        ensures
            r == self@.contains(package@),
    {
        let mut i: usize = 0;
        while i < self.packages.len()
            invariant
                i <= self.packages@.len(),
                forall|j: int| 0 <= j < i ==> self@[j] != package@,
            decreases self.packages.len() - i,
        {
            if self.packages[i] == *package {
                assert(self@[i as int] == package@);
                return true;
            }
            i = i + 1;
        }
        false
    }

    /// The installed packages, in order.
    pub fn packages(&self) -> (r: Vec<String>)
        ensures
            Seq::new(r@.len(), |i: int| r@[i]@) == self@,
    {
        let r = crate::stage::clone_strings(&self.packages);
        assert(Seq::new(r@.len(), |i: int| r@[i]@) =~= self@);
        r
    }

    /// Makes one package available; installing it again is a no-op.
    pub fn ensure_package(&mut self, package: &String)
        requires
            old(self).wf(),
        ensures
            final(self)@ == add_package(old(self)@, package@),
            final(self).wf(),
    {
        if !self.contains(package) {
            let ghost before = self@;
            self.packages.push(package.clone());
            assert(self@ =~= before.push(package@));
        }
    }

    /// Makes each of `packages` available, in order. Packages already installed
    /// are left as they are, and the call succeeds for them too.
    pub fn ensure_packages(&mut self, packages: &Vec<String>)
        requires
            old(self).wf(),
        ensures
            final(self)@ == ensure_spec(old(self)@, crate::stage::strings(packages@)),
            final(self).wf(),
    {
        let ghost start = self@;
        let ghost names = crate::stage::strings(packages@);
        let mut i: usize = 0;
        while i < packages.len()
            invariant
                i <= packages@.len(),
                names == crate::stage::strings(packages@),
                self.wf(),
                self@ == ensure_spec(start, names.subrange(0, i as int)),
            decreases packages.len() - i,
        {
            self.ensure_package(&packages[i]);
            assert(names.subrange(0, i + 1).drop_last() =~= names.subrange(0, i as int));
            i = i + 1;
        }
        assert(names.subrange(0, i as int) =~= names);
    }
}

} // verus!
