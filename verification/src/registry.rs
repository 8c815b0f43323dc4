use vstd::prelude::*;
use crate::handler::{Handler, InvokeFault};
use crate::scalar::Scalar;

verus! {

/// Why a dispatch did not produce an encoded answer.
#[derive(Debug)]
pub enum DispatchError {
    /// No handler is registered under the selector. `known` lists every
    /// selector the registry currently holds, in registration order.
    UnknownSelector { selector: String, known: Vec<String> },
    /// The calldata did not decode into the handler's parameter list.
    BadParams(String),
    /// The handler body rejected its inputs.
    HandlerFailed(String),
}

/// The mapping from selector to handler, owned by the session for its
/// lifetime. Built once before the session starts; never holds two handlers
/// for one selector (a later registration overwrites the earlier one).
pub struct Registry<H> {
    entries: Vec<(String, H)>,
}

impl<H: Handler> Registry<H> {
    /// The handler stored under `sel` in `entries`, if any.
    pub open spec fn find_in(entries: Seq<(String, H)>, sel: Seq<char>) -> Option<H>
        decreases entries.len(),
    {
        if entries.len() == 0 {
            None
        } else if entries[0].0@ == sel {
            Some(entries[0].1)
        } else {
            Self::find_in(entries.skip(1), sel)
        }
    }

    /// The handler registered under `sel`, if any.
    pub closed spec fn spec_get(self, sel: Seq<char>) -> Option<H> {
        Self::find_in(self.entries@, sel)
    }

    /// Every registered selector, in registration order.
    pub closed spec fn selectors(self) -> Seq<Seq<char>> {
        self.entries@.map_values(|e: (String, H)| e.0@)
    }

    /// No selector appears twice.
    pub closed spec fn wf(self) -> bool {
        forall|i: int, j: int|
            0 <= i < j < self.entries@.len() ==> self.entries@[i].0@ != self.entries@[j].0@
    }

    proof fn lemma_find_skip(entries: Seq<(String, H)>, sel: Seq<char>, i: int)
        requires
            0 <= i <= entries.len(),
            forall|j: int| 0 <= j < i ==> entries[j].0@ != sel,
        ensures
            Self::find_in(entries, sel) == Self::find_in(entries.skip(i), sel),
        decreases i,
    {
        if i > 0 {
            assert(entries.skip(1).skip(i - 1) =~= entries.skip(i));
            Self::lemma_find_skip(entries.skip(1), sel, i - 1);
        } else {
            assert(entries.skip(0) =~= entries);
        }
    }

    proof fn lemma_find_update_other(entries: Seq<(String, H)>, i: int, p: (String, H), sel: Seq<char>)
        requires
            0 <= i < entries.len(),
            p.0@ == entries[i].0@,
            sel != p.0@,
        ensures
            Self::find_in(entries.update(i, p), sel) == Self::find_in(entries, sel),
        decreases entries.len(),
    {
        let u = entries.update(i, p);
        if entries.len() > 0 {
            if i == 0 {
                assert(u.skip(1) =~= entries.skip(1));
            } else {
                assert(u[0] == entries[0]);
                if entries[0].0@ != sel {
                    assert(u.skip(1) =~= entries.skip(1).update(i - 1, p));
                    Self::lemma_find_update_other(entries.skip(1), i - 1, p, sel);
                }
            }
        }
    }

    proof fn lemma_find_push(entries: Seq<(String, H)>, p: (String, H), sel: Seq<char>)
        ensures
            sel == p.0@ && Self::find_in(entries, sel) is None ==> Self::find_in(
                entries.push(p),
                sel,
            ) == Some(p.1),
            sel != p.0@ ==> Self::find_in(entries.push(p), sel) == Self::find_in(entries, sel),
        decreases entries.len(),
    {
        if entries.len() == 0 {
            assert(entries.push(p)[0] == p);
            assert(entries.push(p).skip(1) =~= Seq::<(String, H)>::empty());
            assert(Self::find_in(Seq::<(String, H)>::empty(), sel) is None);
        } else {
            assert(entries.push(p)[0] == entries[0]);
            assert(entries.push(p).skip(1) =~= entries.skip(1).push(p));
            Self::lemma_find_push(entries.skip(1), p, sel);
        }
    }

    /// A fresh registry with nothing registered.
    pub fn new() -> (r: Registry<H>)
        ensures
            r.selectors() == Seq::<Seq<char>>::empty(),
            forall|s: Seq<char>| r.spec_get(s) is None,
            r.wf(),
    {
        let r = Registry { entries: Vec::new() };
        proof {
            assert(r.selectors() =~= Seq::<Seq<char>>::empty());
        }
        r
    }

    /// Stores `handler` under `selector`, overwriting any prior entry for
    /// the same selector.
    pub fn register(&mut self, selector: String, handler: H)
        requires
            old(self).wf(),
        ensures
            final(self).wf(),
            final(self).spec_get(selector@) == Some(handler),
            forall|s: Seq<char>|
                s != selector@ ==> final(self).spec_get(s) == old(self).spec_get(s),
            old(self).spec_get(selector@) is Some ==> final(self).selectors() == old(
                self,
            ).selectors(),
            old(self).spec_get(selector@) is None ==> final(self).selectors() == old(
                self,
            ).selectors().push(selector@),
    {
        let ghost entries0 = self.entries@;
        let mut i: usize = 0;
        let n = self.entries.len();
        while i < n
            invariant
                n == self.entries@.len(),
                0 <= i <= n,
                *self == *old(self),
                old(self).wf(),
                self.entries@ == entries0,
                forall|j: int| 0 <= j < i ==> self.entries@[j].0@ != selector@,
            decreases n - i,
        {
            if self.entries[i].0 == selector {
                proof {
                    Self::lemma_find_skip(entries0, selector@, i as int);
                    assert(Self::find_in(entries0.skip(i as int), selector@) is Some);
                }
                let p = (selector, handler);
                self.entries.set(i, p);
                proof {
                    assert(self.entries@ =~= entries0.update(i as int, p));
                    assert forall|k: int| 0 <= k < self.entries@.len() implies self.entries@[k].0@
                        == entries0[k].0@ by {}
                    Self::lemma_find_skip(self.entries@, selector@, i as int);
                    assert(self.entries@.skip(i as int)[0] == p);
                    assert(Self::find_in(self.entries@, selector@) == Some(handler));
                    assert forall|s: Seq<char>| s != selector@ implies Self::find_in(
                        self.entries@,
                        s,
                    ) == Self::find_in(entries0, s) by {
                        Self::lemma_find_update_other(entries0, i as int, p, s);
                    }
                    assert(self.selectors() =~= old(self).selectors());
                }
                return ;
            }
            i += 1;
        }
        proof {
            Self::lemma_find_skip(entries0, selector@, n as int);
            assert(entries0.skip(n as int) =~= Seq::<(String, H)>::empty());
            assert(Self::find_in(entries0, selector@) is None);
        }
        let p = (selector, handler);
        self.entries.push(p);
        proof {
            Self::lemma_find_push(entries0, p, p.0@);
            assert forall|s: Seq<char>| s != p.0@ implies Self::find_in(self.entries@, s)
                == Self::find_in(entries0, s) by {
                Self::lemma_find_push(entries0, p, s);
            }
            assert(self.selectors() =~= old(self).selectors().push(p.0@));
            assert forall|i2: int, j2: int|
                0 <= i2 < j2 < self.entries@.len() implies self.entries@[i2].0@
                != self.entries@[j2].0@ by {
                if j2 == self.entries@.len() - 1 {
                    Self::lemma_find_skip(entries0, entries0[i2].0@, i2);
                    assert(Self::find_in(entries0, entries0[i2].0@) is Some);
                }
            }
        }
    }

    /// Clones out every registered selector, in registration order.
    pub fn known_selectors(&self) -> (r: Vec<String>)
        ensures
            r@.map_values(|s: String| s@) == self.selectors(),
    {
        let mut r: Vec<String> = Vec::new();
        let n = self.entries.len();
        let mut i: usize = 0;
        while i < n
            invariant
                n == self.entries@.len(),
                0 <= i <= n,
                r@.len() == i,
                forall|j: int| 0 <= j < i ==> r@[j]@ == self.entries@[j].0@,
            decreases n - i,
        {
            let name = self.entries[i].0.clone();
            r.push(name);
            i += 1;
        }
        proof {
            assert(r@.map_values(|s: String| s@) =~= self.selectors());
        }
        r
    }

    /// Resolves `selector` and runs its handler on `calldata`.
    ///
    /// An unregistered selector never touches any handler and reports the
    /// full set of registered selectors back. A registered one is invoked
    /// exactly once, updating its state in place; the result is the
    /// handler's encoded answer, or the fault the invocation raised.
    pub fn dispatch(&mut self, selector: &String, calldata: &Vec<Scalar>) -> (r: Result<
        Vec<Scalar>,
        DispatchError,
    >)
        requires
            old(self).wf(),
        ensures
            final(self).wf(),
            final(self).selectors() == old(self).selectors(),
            old(self).spec_get(selector@) is None ==> {
                &&& *final(self) == *old(self)
                &&& r matches Err(DispatchError::UnknownSelector { selector: s, known })
                    && s@ == selector@ && known@.map_values(|k: String| k@) == old(
                    self,
                ).selectors()
            },
            (old(self).spec_get(selector@) matches Some(h) ==> {
                &&& final(self).spec_get(selector@) == Some(h.next_state(calldata@))
                &&& forall|s: Seq<char>|
                    s != selector@ ==> final(self).spec_get(s) == old(self).spec_get(s)
                &&& !h.decodes(calldata@) ==> (r matches Err(DispatchError::BadParams(_)))
                &&& h.decodes(calldata@) && !h.succeeds(calldata@) ==> (r matches Err(
                    DispatchError::HandlerFailed(_),
                ))
                &&& h.decodes(calldata@) && h.succeeds(calldata@) ==> (r matches Ok(v)
                    && v@ == h.result_of(calldata@))
            }),
    {
        let ghost entries0 = self.entries@;
        let n = self.entries.len();
        let mut i: usize = 0;
        while i < n
            invariant
                n == self.entries@.len(),
                0 <= i <= n,
                *self == *old(self),
                old(self).wf(),
                self.entries@ == entries0,
                forall|j: int| 0 <= j < i ==> self.entries@[j].0@ != selector@,
            decreases n - i,
        {
            if self.entries[i].0 == *selector {
                proof {
                    Self::lemma_find_skip(entries0, selector@, i as int);
                }
                let pair = self.entries.remove(i);
                let name = pair.0;
                let mut h = pair.1;
                let ghost h0 = h;
                let outcome = h.invoke_untyped(calldata);
                let p = (name, h);
                self.entries.insert(i, p);
                proof {
                    assert(self.entries@ =~= entries0.update(i as int, p));
                    assert forall|k: int| 0 <= k < self.entries@.len() implies self.entries@[k].0@
                        == entries0[k].0@ by {}
                    Self::lemma_find_skip(self.entries@, selector@, i as int);
                    assert(self.entries@.skip(i as int)[0] == p);
                    assert(Self::find_in(self.entries@, selector@) == Some(
                        h0.next_state(calldata@),
                    ));
                    assert forall|s: Seq<char>| s != selector@ implies Self::find_in(
                        self.entries@,
                        s,
                    ) == Self::find_in(entries0, s) by {
                        Self::lemma_find_update_other(entries0, i as int, p, s);
                    }
                    assert(self.selectors() =~= old(self).selectors());
                }
                return match outcome {
                    Ok(v) => Ok(v),
                    Err(InvokeFault::BadParams(d)) => Err(DispatchError::BadParams(d)),
                    Err(InvokeFault::Failed(d)) => Err(DispatchError::HandlerFailed(d)),
                };
            }
            i += 1;
        }
        proof {
            Self::lemma_find_skip(entries0, selector@, n as int);
            assert(entries0.skip(n as int) =~= Seq::<(String, H)>::empty());
        }
        let known = self.known_selectors();
        Err(DispatchError::UnknownSelector { selector: selector.clone(), known })
    }
}

} // verus!
