//! Which outputs need a new frame.

use std::collections::BTreeMap;
use vstd::prelude::*;
use vstd::laws_cmp::obeys_cmp;
use vstd::std_specs::cmp::OrdSpec;
use vstd::std_specs::iter::IteratorSpec;
use vstd::std_specs::btree::{axiom_increasing_seq_meaning, key_obeys_cmp_spec};

use crate::focus::OutputId;

verus! {

broadcast use vstd::std_specs::btree::group_btree_axioms, vstd::laws_cmp::group_laws_cmp;

/// For each known output, whether its surface shows an outdated frame.
pub struct OutputDamage {
    dirty: BTreeMap<OutputId, bool>,
}

impl View for OutputDamage {
    type V = Map<OutputId, bool>;

    closed spec fn view(&self) -> Map<OutputId, bool> {
        self.dirty@
    }
}

/// The map with every known output marked outdated.
pub open spec fn all_dirty(outputs: Map<OutputId, bool>) -> Map<OutputId, bool> {
    Map::new(|output: OutputId| outputs.contains_key(output), |output: OutputId| true)
}

impl OutputDamage {
    /// No outputs.
    pub fn new() -> (res: Self)
        ensures
            res@ == Map::<OutputId, bool>::empty(),
    {
        OutputDamage { dirty: BTreeMap::new() }
    }

    /// A new output, which needs its first frame.
    pub fn add_output(&mut self, output: OutputId)
        ensures
            final(self)@ == old(self)@.insert(output, true),
    {
        self.dirty.insert(output, true);
    }

    /// Forgets an output.
    pub fn remove_output(&mut self, output: OutputId)
        ensures
            final(self)@ == old(self)@.remove(output),
    {
        self.dirty.remove(&output);
    }

    /// Whether `output` is known and shows an outdated frame.
    pub fn needs_render(&self, output: OutputId) -> (res: bool)
        ensures
            res == (self@.contains_key(output) && self@[output]),
    {
        match self.dirty.get(&output) {
            Some(dirty) => *dirty,
            None => false,
        }
    }

    /// Marks a known output outdated; an unknown one is ignored.
    pub fn damage(&mut self, output: OutputId)
        ensures
            final(self)@ == (if old(self)@.contains_key(output) {
                old(self)@.insert(output, true)
            } else {
                old(self)@
            }),
    {
        if self.dirty.contains_key(&output) {
            self.dirty.insert(output, true);
        }
    }

    /// Marks a known output up to date after a frame was drawn for it.
    pub fn mark_rendered(&mut self, output: OutputId)
        ensures
            final(self)@ == (if old(self)@.contains_key(output) {
                old(self)@.insert(output, false)
            } else {
                old(self)@
            }),
    {
        if self.dirty.contains_key(&output) {
            self.dirty.insert(output, false);
        }
    }

    /// The known outputs, in increasing order.
    fn outputs(&self) -> (res: Vec<OutputId>)
        ensures
            res@.to_set() == self@.dom(),
            res@.no_duplicates(),
            forall|i: int, j: int| 0 <= i < j < res@.len() ==> res@[i] < res@[j],
    {
        let mut res: Vec<OutputId> = Vec::new();
        let keys = self.dirty.keys();
        let ghost seq = keys.remaining();
        proof {
            assert(key_obeys_cmp_spec::<OutputId>());
            assert(obeys_cmp::<&OutputId>());
            axiom_increasing_seq_meaning(seq);
        }
        for output in it: keys
            invariant
                it.seq() == seq,
                res@ == seq.unref().subrange(0, it.index()),
        {
            res.push(*output);
        }
        proof {
            assert(res@ == seq.unref());
            assert forall|i: int, j: int| 0 <= i < j < res@.len() implies res@[i] < res@[j] by {
                assert(OrdSpec::cmp_spec(&seq[i], &seq[j]) is Less);
            }
            assert forall|i: int, j: int| 0 <= i < j < res@.len() implies res@[i] != res@[j] by {
                assert(seq[i] != seq[j]);
            }
        }
        res
    }

    /// Marks every known output outdated when `changed`, and returns
    /// `changed`.
    pub fn record(&mut self, changed: bool) -> (res: bool)
        ensures
            res == changed,
            final(self)@ == (if changed {
                all_dirty(old(self)@)
            } else {
                old(self)@
            }),
    {
        if changed {
            let outputs = self.outputs();
            let mut i: usize = 0;
            while i < outputs.len()
                invariant
                    i <= outputs@.len(),
                    outputs@.to_set() == old(self)@.dom(),
                    self@.dom() == old(self)@.dom(),
                    forall|j: int| 0 <= j < i ==> self@[#[trigger] outputs@[j]],
                decreases outputs@.len() - i,
            {
                proof {
                    assert(outputs@.to_set().contains(outputs@[i as int]));
                }
                self.dirty.insert(outputs[i], true);
                proof {
                    assert(self@.dom() =~= old(self)@.dom());
                }
                i = i + 1;
            }
            proof {
                assert forall|output: OutputId| #[trigger] self@.contains_key(output) implies self@[output] by {
                    assert(outputs@.to_set().contains(output));
                    let j = choose|j: int| 0 <= j < outputs@.len() && outputs@[j] == output;
                    assert(self@[outputs@[j]]);
                }
                assert(self@ =~= all_dirty(old(self)@));
            }
        }
        changed
    }

    /// The outputs that show an outdated frame, in increasing order.
    pub fn damaged_outputs(&self) -> (res: Vec<OutputId>)
        ensures
            forall|output: OutputId|
                #[trigger] res@.contains(output) <==> (self@.contains_key(output) && self@[output]),
            res@.no_duplicates(),
            forall|i: int, j: int| 0 <= i < j < res@.len() ==> res@[i] < res@[j],
    {
        let outputs = self.outputs();
        let mut res: Vec<OutputId> = Vec::new();
        let mut i: usize = 0;
        while i < outputs.len()
            invariant
                i <= outputs@.len(),
                outputs@.to_set() == self@.dom(),
                forall|a: int, b: int| 0 <= a < b < outputs@.len() ==> outputs@[a] < outputs@[b],
                forall|a: int, b: int| 0 <= a < b < res@.len() ==> res@[a] < res@[b],
                forall|a: int, m: int| 0 <= a < res@.len() && i <= m < outputs@.len() ==> res@[a] < outputs@[m],
                forall|output: OutputId| #[trigger] res@.contains(output) <==> (exists|m: int|
                    0 <= m < i && outputs@[m] == output) && self@.contains_key(output) && self@[output],
            decreases outputs@.len() - i,
        {
            let output = outputs[i];
            let ghost prev = res@;
            proof {
                assert(outputs@.to_set().contains(output));
            }
            let dirty = self.needs_render(output);
            if dirty {
                res.push(output);
            }
            proof {
                assert forall|o: OutputId| #[trigger] res@.contains(o) <==> (exists|m: int|
                    0 <= m < i + 1 && outputs@[m] == o) && self@.contains_key(o) && self@[o] by {
                    if res@.contains(o) {
                        let a = choose|a: int| 0 <= a < res@.len() && res@[a] == o;
                        if a < res@.len() - 1 || !dirty {
                            assert(prev.contains(o)) by {
                                assert(res@[a] == o);
                            }
                        }
                    }
                    if (exists|m: int| 0 <= m < i + 1 && outputs@[m] == o) && self@.contains_key(o) && self@[o] {
                        let m = choose|m: int| 0 <= m < i + 1 && outputs@[m] == o;
                        if m < i {
                            assert(prev.contains(o));
                            let a = choose|a: int| 0 <= a < prev.len() && prev[a] == o;
                            assert(res@[a] == o);
                        } else {
                            assert(res@[res@.len() - 1] == o);
                        }
                    }
                }
            }
            i = i + 1;
        }
        proof {
            assert forall|output: OutputId| #[trigger] res@.contains(output) <==> (self@.contains_key(output) && self@[output]) by {
                if self@.contains_key(output) {
                    assert(outputs@.to_set().contains(output));
                }
            }
            assert forall|a: int, b: int| 0 <= a < res@.len() && 0 <= b < res@.len() && a != b implies res@[a] != res@[b] by {
                if a < b {
                    assert(res@[a] < res@[b]);
                } else {
                    assert(res@[b] < res@[a]);
                }
            }
        }
        res
    }
}

} // verus!
