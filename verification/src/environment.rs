//! Chained scopes.
//!
//! An environment is an arena of frames.  Each frame maps names to values
//! and may delegate failed lookups to the frame it was created in — its
//! parent, which always has a smaller index.  Frame 0 is the global scope.
//! Function values capture the index of their frame, so the scopes they
//! close over stay alive as long as the environment does, and additions to
//! a captured scope made after the capture are still observed.

use vstd::prelude::*;

use crate::model::{
    bind_lookup, env_set, lookup_from, EnvModel, FrameModel, ValueModel,
};
use crate::object::{object_model, Object};

verus! {

/// One scope: its bindings in the order they were made, and the frame its
/// lookups fall back to.
#[derive(Debug)]
pub struct Frame {
    pub parent: Option<usize>,
    pub binds: Vec<(String, Object)>,
}

/// The model of one scope.
pub open spec fn frame_model(f: Frame) -> FrameModel {
    FrameModel {
        parent: (match f.parent {
            Some(p) => Some(p as nat),
            None => None,
        }),
        binds: Seq::new(f.binds@.len(), |i: int| (f.binds@[i].0@, object_model(f.binds@[i].1))),
    }
}

impl View for Frame {
    type V = FrameModel;

    open spec fn view(&self) -> FrameModel {
        frame_model(*self)
    }
}

/// An environment: every frame ever created, in order of creation.
#[derive(Debug)]
pub struct Environment {
    pub frames: Vec<Frame>,
}

impl View for Environment {
    type V = EnvModel;

    open spec fn view(&self) -> EnvModel {
        Seq::new(self.frames@.len(), |i: int| frame_model(self.frames@[i]))
    }
}

impl Environment {
    /// A fresh environment holding only the empty global scope.
    pub fn new() -> (env: Environment)
        ensures
            env@ == seq![FrameModel { parent: None, binds: Seq::empty() }],
    {
        let mut frames: Vec<Frame> = Vec::new();
        frames.push(Frame { parent: None, binds: Vec::new() });
        let env = Environment { frames };
        proof {
            assert(env@ =~~= seq![
                FrameModel { parent: None, binds: Seq::<(Seq<char>, ValueModel)>::empty() },
            ]);
        }
        env
    }

    /// Creates an empty scope whose lookups fall back to `outer`, and
    /// returns its index.
    pub fn new_enclosed(&mut self, outer: usize) -> (f: usize)
        ensures
            f == old(self)@.len(),
            final(self)@ == old(self)@.push(
                FrameModel { parent: Some(outer as nat), binds: Seq::empty() },
            ),
    {
        let ghost before = self@;
        let f = self.frames.len();
        self.frames.push(Frame { parent: Some(outer), binds: Vec::new() });
        proof {
            assert(self@ =~~= before.push(
                FrameModel {
                    parent: Some(outer as nat),
                    binds: Seq::<(Seq<char>, ValueModel)>::empty(),
                },
            ));
        }
        f
    }

    /// Binds `name` to `value` in frame `frame` alone; an equal name in an
    /// outer scope is shadowed, not changed.  An index out of range binds
    /// nothing.
    pub fn set(&mut self, frame: usize, name: String, value: Object)
        ensures
            final(self)@ == env_set(old(self)@, frame as int, name@, value@),
    {
        let ghost before = self@;
        let ghost name_m = name@;
        let ghost value_m = value@;
        if frame < self.frames.len() {
            let fr = &mut self.frames[frame];
            fr.binds.push((name, value));
            proof {
                assert(self@.len() == before.len());
                assert(self@[frame as int].binds =~~= before[frame as int].binds.push(
                    (name_m, value_m),
                ));
                assert(self@[frame as int].parent == before[frame as int].parent);
                assert(self@ =~~= env_set(before, frame as int, name_m, value_m));
            }
        }
    }

    /// The value of `name` seen from frame `frame`, walking the scope
    /// chain outward; `None` when no scope in the chain binds it.
    pub fn get(&self, frame: usize, name: &String) -> (r: Option<Object>)
        ensures
            (match r {
                Some(o) => lookup_from(self@, frame as int, name@) == Some(o@),
                None => lookup_from(self@, frame as int, name@) is None,
            }),
        decreases frame,
    {
        if frame >= self.frames.len() {
            return None;
        }
        let fr = &self.frames[frame];
        let ghost fm = frame_model(*fr);
        proof {
            assert(self@[frame as int] == fm);
        }
        let n = fr.binds.len();
        let mut j: usize = n;
        proof {
            assert(fm.binds.take(n as int) =~= fm.binds);
        }
        while j > 0
            invariant
                j <= n,
                n == fr.binds@.len(),
                fm == frame_model(*fr),
                (frame as int) < self@.len(),
                self@[frame as int] == fm,
                bind_lookup(fm.binds, name@) == bind_lookup(fm.binds.take(j as int), name@),
            decreases j,
        {
            j = j - 1;
            proof {
                assert(fm.binds.take(j as int + 1).len() == j + 1);
                assert(fm.binds.take(j as int + 1).last() == (
                    fr.binds@[j as int].0@,
                    object_model(fr.binds@[j as int].1),
                ));
                assert(fm.binds.take(j as int + 1).drop_last() =~= fm.binds.take(j as int));
            }
            let hit = fr.binds[j].0.eq(name);
            if hit {
                let value = fr.binds[j].1.clone();
                proof {
                    assert(bind_lookup(fm.binds.take(j as int + 1), name@) == Some(
                        object_model(fr.binds@[j as int].1),
                    ));
                    assert(bind_lookup(fm.binds, name@) == Some(object_model(
                        fr.binds@[j as int].1,
                    )));
                    assert(value@ == object_model(fr.binds@[j as int].1));
                    assert(lookup_from(self@, frame as int, name@) == Some(value@));
                }
                return Some(value);
            }
        }
        proof {
            assert(fm.binds.take(0) =~= Seq::<(Seq<char>, ValueModel)>::empty());
            assert(bind_lookup(fm.binds, name@) is None);
        }
        match fr.parent {
            Some(p) => {
                if p < frame {
                    self.get(p, name)
                } else {
                    None
                }
            },
            None => None,
        }
    }
}

} // verus!
