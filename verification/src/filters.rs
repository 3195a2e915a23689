//! Named masks over the LEDs of a domain, which an effect's hooks set and
//! read to restrict what they paint.

use vstd::prelude::*;

verus! {

struct Mask {
    name: String,
    leds: Vec<usize>,
}

spec fn named(masks: Seq<Mask>, n: Seq<char>) -> bool {
    exists|i: int| 0 <= i < masks.len() && (#[trigger] masks[i]).name@ == n
}

spec fn slot(masks: Seq<Mask>, n: Seq<char>) -> int {
    choose|i: int| 0 <= i < masks.len() && (#[trigger] masks[i]).name@ == n
}

spec fn distinct(masks: Seq<Mask>) -> bool {
    forall|i: int, j: int|
        0 <= i < j < masks.len() ==> (#[trigger] masks[i]).name@ != (#[trigger] masks[j]).name@
}

spec fn model(masks: Seq<Mask>) -> Map<Seq<char>, Seq<usize>> {
    Map::new(|n: Seq<char>| named(masks, n), |n: Seq<char>| masks[slot(masks, n)].leds@)
}

proof fn lemma_at(masks: Seq<Mask>, i: int)
    requires
        distinct(masks),
        0 <= i < masks.len(),
    ensures
        model(masks).contains_key(masks[i].name@),
        model(masks)[masks[i].name@] == masks[i].leds@,
{
    let n = masks[i].name@;
    assert(named(masks, n));
    let k = slot(masks, n);
    assert(0 <= k < masks.len() && masks[k].name@ == n);
    assert(k == i);
}

proof fn lemma_put(masks: Seq<Mask>, after: Seq<Mask>, m: Mask)
    requires
        distinct(masks),
        (!named(masks, m.name@) && after == masks.push(m)) || (exists|i: int|
            0 <= i < masks.len() && masks[i].name@ == m.name@ && after == masks.update(i, m)),
    ensures
        distinct(after),
        model(after) =~= model(masks).insert(m.name@, m.leds@),
{
    let at: int = if named(masks, m.name@) {
        slot(masks, m.name@)
    } else {
        masks.len() as int
    };
    assert(after.len() > at && after[at] == m);
    assert forall|a: int| 0 <= a < after.len() && a != at implies a < masks.len() && #[trigger] after[a]
        == masks[a] by {
        if named(masks, m.name@) {
            let i = choose|i: int|
                0 <= i < masks.len() && masks[i].name@ == m.name@ && after == masks.update(i, m);
            assert(i == at);
        }
    }
    assert forall|a: int, b: int| 0 <= a < b < after.len() implies (#[trigger] after[a]).name@ != (
    #[trigger] after[b]).name@ by {
        if a == at {
            if b < masks.len() {
                assert(masks[b].name@ != m.name@);
            }
        } else if b == at {
            assert(masks[a].name@ != m.name@);
        }
    }
    assert forall|n: Seq<char>|
        model(after).contains_key(n) <==> model(masks).insert(m.name@, m.leds@).contains_key(
            n,
        ) by {
        if named(masks, n) {
            let k = slot(masks, n);
            if k != at {
                assert(after[k].name@ == n);
            } else {
                assert(after[at].name@ == n);
            }
        }
        if named(after, n) {
            let k = slot(after, n);
            if k != at {
                assert(masks[k].name@ == n);
            }
        }
        assert(after[at].name@ == m.name@);
    }
    assert forall|n: Seq<char>| model(after).contains_key(n) implies #[trigger] model(after)[n]
        == model(masks).insert(m.name@, m.leds@)[n] by {
        let k = slot(after, n);
        lemma_at(after, k);
        if k != at {
            lemma_at(masks, k);
        }
    }
}

/// The masks of one effect, by name.
pub struct Filters {
    masks: Vec<Mask>,
}

impl View for Filters {
    type V = Map<Seq<char>, Seq<usize>>;

    closed spec fn view(&self) -> Map<Seq<char>, Seq<usize>> {
        model(self.masks@)
    }
}

impl Filters {
    /// Every name occurs once.
    pub closed spec fn wf(&self) -> bool {
        distinct(self.masks@)
    }

    /// No masks.
    pub fn new() -> (f: Filters)
        ensures
            f.wf(),
            f@ == Map::<Seq<char>, Seq<usize>>::empty(),
    {
        let f = Filters { masks: Vec::new() };
        assert(f@ =~= Map::<Seq<char>, Seq<usize>>::empty());
        f
    }

    fn find(&self, name: &str) -> (r: Option<usize>)
        requires
            self.wf(),
        ensures
            match r {
                Some(i) => i < self.masks.len() && self.masks[i as int].name@ == name@
                    && self@.contains_key(name@) && self@[name@] == self.masks[i as int].leds@,
                None => !named(self.masks@, name@) && !self@.contains_key(name@),
            },
    {
        let key: String = name.to_owned();
        let mut i: usize = 0;
        while i < self.masks.len()
            invariant
                i <= self.masks.len(),
                key@ == name@,
                self.wf(),
                forall|j: int| 0 <= j < i ==> (#[trigger] self.masks@[j]).name@ != name@,
            decreases self.masks.len() - i,
        {
            if self.masks[i].name == key {
                proof {
                    lemma_at(self.masks@, i as int);
                }
                return Some(i);
            }
            i += 1;
        }
        None
    }

    /// Puts the mask `leds` under `name`, in the place of any mask that was
    /// there.
    pub fn set(&mut self, name: &str, leds: Vec<usize>)
        requires
            old(self).wf(),
        ensures
            final(self).wf(),
            final(self)@ == old(self)@.insert(name@, leds@),
    {
        let mask = Mask { name: name.to_owned(), leds };
        let ghost before = self.masks@;
        match self.find(name) {
            Some(i) => {
                self.masks.set(i, mask);
                assert(self.masks@ == before.update(i as int, mask));
            },
            None => {
                self.masks.push(mask);
            },
        }
        proof {
            lemma_put(before, self.masks@, mask);
        }
    }

    /// The mask under `name`, if there is one.
    pub fn get(&self, name: &str) -> (r: Option<&Vec<usize>>)
        requires
            self.wf(),
        ensures
            match r {
                Some(leds) => self@.contains_key(name@) && self@[name@] == leds@,
                None => !self@.contains_key(name@),
            },
    {
        match self.find(name) {
            Some(i) => Some(&self.masks[i].leds),
            None => None,
        }
    }

    /// Removes every mask.
    pub fn clear(&mut self)
        ensures
            final(self).wf(),
            final(self)@ == Map::<Seq<char>, Seq<usize>>::empty(),
    {
        self.masks = Vec::new();
        assert(self@ =~= Map::<Seq<char>, Seq<usize>>::empty());
    }
}

} // verus!
