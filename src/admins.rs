use vstd::prelude::*;

verus! {

/// The admin list after adding `a`: unchanged if `a` is there, else `a`
/// appended.
pub open spec fn with_admin(admins: Seq<u64>, a: u64) -> Seq<u64> {
    if admins.contains(a) { admins } else { admins.push(a) }
}

/// The admin list after removing `a`: every other entry, in order.
pub open spec fn without_admin(admins: Seq<u64>, a: u64) -> Seq<u64> {
    admins.filter(other_than(a))
}

pub open spec fn other_than(a: u64) -> spec_fn(u64) -> bool {
    |x: u64| x != a
}

/// The registered admins, in the order they were added, each once.
#[derive(Clone, Debug)]
pub struct AdminList {
    ids: Vec<u64>,
}

impl View for AdminList {
    type V = Seq<u64>;

    closed spec fn view(&self) -> Seq<u64> {
        self.ids@
    }
}

impl AdminList {
    /// Each admin is listed once.
    pub open spec fn wf(&self) -> bool {
        self@.no_duplicates()
    }

    pub fn new() -> (r: AdminList)
        ensures
            r.wf(),
            r@ == Seq::<u64>::empty(),
    {
        AdminList { ids: Vec::new() }
    }

    pub fn contains(&self, a: u64) -> (r: bool)
        ensures
            r == self@.contains(a),
    {
        let mut i: usize = 0;
        while i < self.ids.len()
            invariant
                0 <= i <= self.ids@.len(),
                forall|j: int| 0 <= j < i ==> self.ids@[j] != a,
            decreases self.ids@.len() - i,
        {
            if self.ids[i] == a {
                return true;
            }
            i = i + 1;
        }
        false
    }

    pub fn add(&mut self, a: u64)
        requires
            old(self).wf(),
        ensures
            final(self).wf(),
            final(self)@ == with_admin(old(self)@, a),
    {
        if !self.contains(a) {
            self.ids.push(a);
        }
    }

    pub fn remove(&mut self, a: u64)
        requires
            old(self).wf(),
        ensures
            final(self).wf(),
            final(self)@ == without_admin(old(self)@, a),
    {
        let mut kept: Vec<u64> = Vec::new();
        let mut i: usize = 0;
        while i < self.ids.len()
            invariant
                0 <= i <= self.ids@.len(),
                self.ids@.no_duplicates(),
                kept@ == self.ids@.take(i as int).filter(other_than(a)),
                kept@.no_duplicates(),
            decreases self.ids@.len() - i,
        {
            let x = self.ids[i];
            proof {
                assert(self.ids@.take(i as int + 1) =~= self.ids@.take(i as int).push(x));
                self.ids@.take(i as int).lemma_filter_push(x, other_than(a));
            }
            if x != a {
                proof {
                    if kept@.contains(x) {
                        self.ids@.take(i as int).lemma_filter_contains_rev(other_than(a), x);
                        let k = choose|k: int| 0 <= k < i && self.ids@.take(i as int)[k] == x;
                        assert(self.ids@[k] == self.ids@[i as int]);
                    }
                }
                kept.push(x);
            }
            i = i + 1;
        }
        assert(self.ids@.take(self.ids@.len() as int) =~= self.ids@);
        self.ids = kept;
    }

    /// The admins as a vector, in order.
    pub fn to_vec(&self) -> (r: Vec<u64>)
        ensures
            r@ == self@,
    {
        self.ids.clone()
    }
}

} // verus!
