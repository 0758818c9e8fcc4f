//! Navigation-mesh plumbing the core keeps: obstacles and the waypoint list
//! an enemy follows. Pathfinding itself is the navigation collaborator's
//! oracle; the core only stores the waypoints it hands back.

use vstd::prelude::*;

use crate::common::Vec3Fixed;

verus! {

/// What a map body means to the navigation mesh.
#[derive(Clone, Copy, Debug, PartialEq, Eq, Structural)]
pub enum Obstacle {
    /// An impassable block.
    Wall,
}

/// The waypoints an enemy follows: the one it heads for now, and the rest in
/// reverse order (the nearest upcoming waypoint last, so it can be popped).
#[derive(Clone, Debug)]
pub struct NavigatorPath {
    /// The waypoint currently headed for.
    pub current: Vec3Fixed,
    /// The remaining waypoints, reversed.
    pub next: Vec<Vec3Fixed>,
}

impl Default for NavigatorPath {
    fn default() -> (r: Self)
        ensures
            r.current.x.as_milli() == 0,
            r.current.y.as_milli() == 0,
            r.current.z.as_milli() == 0,
            r.next@ == Seq::<Vec3Fixed>::empty(),
    {
        NavigatorPath {
            current: Vec3Fixed {
                x: crate::fixed::Fixed::zero(),
                y: crate::fixed::Fixed::zero(),
                z: crate::fixed::Fixed::zero(),
            },
            next: Vec::new(),
        }
    }
}

impl NavigatorPath {
    /// Take over a freshly computed path: head for its first waypoint and
    /// keep the rest reversed; an empty path changes nothing.
    pub fn set_from_path(&mut self, path: &Vec<Vec3Fixed>)
        ensures
            path@.len() == 0 ==> *final(self) == *old(self),
            path@.len() > 0 ==> final(self).current == path@[0] && final(self).next@ == path@.subrange(
                1,
                path@.len() as int,
            ).reverse(),
    {
        if path.len() == 0 {
            return ;
        }
        let ghost rest = path@.subrange(1, path@.len() as int);
        self.current = path[0];
        let mut remaining: Vec<Vec3Fixed> = Vec::new();
        let mut i: usize = path.len();
        while i > 1
            invariant
                1 <= i <= path@.len(),
                rest == path@.subrange(1, path@.len() as int),
                remaining@.len() == path@.len() - i,
                forall|k: int|
                    0 <= k < remaining@.len() ==> remaining@[k] == rest.reverse()[k],
            decreases i,
        {
            remaining.push(path[i - 1]);
            proof {
                assert(rest.reverse()[path@.len() - i] == rest[rest.len() - 1 - (path@.len()
                    - i)]);
            }
            i = i - 1;
        }
        proof {
            assert(remaining@ =~= rest.reverse());
        }
        self.next = remaining;
    }
}

} // verus!
