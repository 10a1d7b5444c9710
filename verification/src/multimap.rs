//! The key-binding table: one input event mapped to one or more user
//! actions, with bindings kept in insertion order.

use vstd::prelude::*;

use crate::models::actions::UserAction;
use crate::models::input_event::InputEvent;

verus! {

/// Position of a key in the table, or `-1`, scanning from `i`.
pub open spec fn spec_key_position(
    pairs: Seq<(InputEvent, Seq<UserAction>)>,
    key: InputEvent,
    i: int,
) -> int
    decreases pairs.len() - i,
{
    if i < 0 || i >= pairs.len() {
        -1
    } else if pairs[i].0 == key {
        i
    } else {
        spec_key_position(pairs, key, i + 1)
    }
}

/// A map from input events to the lists of actions bound to them, in
/// the order the bindings were first made.
#[derive(Debug)]
pub struct MultiMap {
    pairs: Vec<(InputEvent, Vec<UserAction>)>,
}

impl View for MultiMap {
    type V = Seq<(InputEvent, Seq<UserAction>)>;

    closed spec fn view(&self) -> Seq<(InputEvent, Seq<UserAction>)> {
        Seq::new(self.pairs@.len(), |i: int| (self.pairs@[i].0, self.pairs@[i].1@))
    }
}

impl MultiMap {
    /// Keys are unique.
    pub open spec fn wf(&self) -> bool {
        forall|i: int, j: int| 0 <= i < j < self@.len() ==> self@[i].0 != self@[j].0
    }

    /// Position of a key, or `-1`.
    pub open spec fn spec_position(&self, key: InputEvent) -> int {
        spec_key_position(self@, key, 0)
    }

    /// The actions bound to a key.
    pub open spec fn spec_bound(&self, key: InputEvent) -> Seq<UserAction> {
        self@[self.spec_position(key)].1
    }

    /// An empty table.
    pub fn new() -> (r: MultiMap)
        ensures
            r.wf(),
            r@.len() == 0,
    {
        let r = MultiMap { pairs: Vec::new() };
        proof {
            assert(r@ =~= Seq::<(InputEvent, Seq<UserAction>)>::empty());
        }
        r
    }

    /// Number of distinct keys.
    pub fn len(&self) -> (r: usize)
        ensures
            r == self@.len(),
    {
        self.pairs.len()
    }

    fn position_of(&self, key: InputEvent) -> (r: Option<usize>)
        ensures
            match r {
                Option::Some(i) => self.spec_position(key) == i && i < self@.len(),
                Option::None => self.spec_position(key) == -1,
            },
    {
        let n = self.pairs.len();
        for i in 0..n
            invariant
                n == self@.len(),
                spec_key_position(self@, key, 0) == spec_key_position(self@, key, i as int),
        {
            proof {
                assert(self@[i as int].0 == self.pairs@[i as int].0);
            }
            if self.pairs[i].0 == key {
                return Option::Some(i);
            }
            assert(spec_key_position(self@, key, i as int) == spec_key_position(
                self@,
                key,
                i as int + 1,
            ));
        }
        Option::None
    }

    /// Appends `value` to the actions bound to `key`; a new key goes to
    /// the end of the table.
    pub fn insert(&mut self, key: InputEvent, value: UserAction)
        requires
            old(self).wf(),
        ensures
            final(self).wf(),
            old(self).spec_position(key) >= 0 ==> final(self)@ == old(self)@.update(
                old(self).spec_position(key),
                (key, old(self).spec_bound(key).push(value)),
            ),
            old(self).spec_position(key) == -1 ==> final(self)@ == old(self)@.push(
                (key, seq![value]),
            ),
    {
        match self.position_of(key) {
            Option::Some(i) => {
                self.pairs[i].1.push(value);
                proof {
                    lemma_key_position_finds(old(self)@, key, 0);
                    assert(self@ =~= old(self)@.update(
                        old(self).spec_position(key),
                        (key, old(self).spec_bound(key).push(value)),
                    ));
                    assert forall|other: InputEvent|
                        #[trigger] spec_key_position(self@, other, 0) == spec_key_position(
                            old(self)@,
                            other,
                            0,
                        ) by {
                        lemma_same_keys_same_position(self@, old(self)@, other, 0);
                    }
                }
            },
            Option::None => {
                let mut bound: Vec<UserAction> = Vec::new();
                bound.push(value);
                proof {
                    assert(bound@ =~= seq![value]);
                }
                self.pairs.push((key, bound));
                proof {
                    assert(self@ =~= old(self)@.push((key, seq![value])));
                    lemma_key_position_none_means_absent(old(self)@, key, 0);
                }
            },
        }
    }

    /// The actions bound to `key`, if any.
    pub fn get_vec(&self, key: InputEvent) -> (r: Option<&Vec<UserAction>>)
        ensures
            match r {
                Option::Some(v) => self.spec_position(key) >= 0 && v@ == self.spec_bound(key),
                Option::None => self.spec_position(key) == -1,
            },
    {
        match self.position_of(key) {
            Option::Some(i) => Option::Some(&self.pairs[i].1),
            Option::None => Option::None,
        }
    }

    /// The key and bound actions at a table position.
    pub fn pair_at(&self, i: usize) -> (r: (InputEvent, &Vec<UserAction>))
        requires
            i < self@.len(),
        ensures
            r.0 == self@[i as int].0,
            r.1@ == self@[i as int].1,
    {
        let p = &self.pairs[i];
        (p.0, &p.1)
    }
}

/// A found position carries the searched key.
proof fn lemma_key_position_finds(
    pairs: Seq<(InputEvent, Seq<UserAction>)>,
    key: InputEvent,
    i: int,
)
    requires
        0 <= i,
        spec_key_position(pairs, key, i) >= 0,
    ensures
        i <= spec_key_position(pairs, key, i) < pairs.len(),
        pairs[spec_key_position(pairs, key, i)].0 == key,
    decreases pairs.len() - i,
{
    if i < pairs.len() && pairs[i].0 != key {
        lemma_key_position_finds(pairs, key, i + 1);
    }
}

/// Equal keys in equal positions scan identically.
proof fn lemma_same_keys_same_position(
    a: Seq<(InputEvent, Seq<UserAction>)>,
    b: Seq<(InputEvent, Seq<UserAction>)>,
    key: InputEvent,
    i: int,
)
    requires
        0 <= i,
        a.len() == b.len(),
        forall|k: int| 0 <= k < a.len() ==> a[k].0 == b[k].0,
    ensures
        spec_key_position(a, key, i) == spec_key_position(b, key, i),
    decreases a.len() - i,
{
    if i < a.len() {
        lemma_same_keys_same_position(a, b, key, i + 1);
    }
}

/// A missed scan means the key is nowhere.
proof fn lemma_key_position_none_means_absent(
    pairs: Seq<(InputEvent, Seq<UserAction>)>,
    key: InputEvent,
    i: int,
)
    requires
        0 <= i,
        spec_key_position(pairs, key, i) < 0,
    ensures
        forall|j: int| i <= j < pairs.len() ==> pairs[j].0 != key,
    decreases pairs.len() - i,
{
    if i < pairs.len() {
        lemma_key_position_none_means_absent(pairs, key, i + 1);
    }
}

} // verus!
