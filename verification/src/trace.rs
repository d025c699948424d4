//! Ray tracing control: choosing the closest hit of a ray, and walking the
//! bounce levels of a trace.
use vstd::prelude::*;

use crate::order::OrderKey;

verus! {

/// A hit at distance `candidate` takes the place of the best hit so far,
/// at distance `best`, exactly when it is strictly closer.
pub open spec fn displaces(best: OrderKey, candidate: OrderKey) -> bool {
    match (best, candidate) {
        (OrderKey::Ordered(b), OrderKey::Ordered(c)) => c < b,
        _ => false,
    }
}

/// The best hit among the first `n` candidates, scanned in order: the first
/// hit is taken, and each later hit replaces it when it is strictly closer.
/// `None` in `hits` is an object that the ray misses.
pub open spec fn closest_among(hits: Seq<Option<OrderKey>>, n: int) -> Option<(int, OrderKey)>
    decreases n,
{
    if n <= 0 {
        None
    } else {
        let prev = closest_among(hits, n - 1);
        match hits[n - 1] {
            None => prev,
            Some(d) => match prev {
                None => Some((n - 1, d)),
                Some((i, b)) => if displaces(b, d) {
                    Some((n - 1, d))
                } else {
                    prev
                },
            },
        }
    }
}

/// Whether a hit lies at an ordered distance.
pub open spec fn is_ordered(h: Option<OrderKey>) -> bool {
    h matches Some(OrderKey::Ordered(_))
}

/// The distance key of a hit at an ordered distance.
pub open spec fn key(h: Option<OrderKey>) -> int {
    match h {
        Some(OrderKey::Ordered(x)) => x as int,
        _ => -1,
    }
}

/// The object that the ray hits first, if it hits any.
pub open spec fn closest_of(hits: Seq<Option<OrderKey>>) -> Option<int> {
    match closest_among(hits, hits.len() as int) {
        None => None,
        Some((i, _)) => Some(i),
    }
}

/// What the scan keeps after `n` candidates: the hit it holds is one of them,
/// it is `None` exactly when none of them is a hit, an ordered best is no
/// farther than any ordered candidate and strictly closer than each ordered
/// candidate before it, and an unordered best is the first hit.
proof fn lemma_closest_among(hits: Seq<Option<OrderKey>>, n: int)
    requires
        0 <= n <= hits.len(),
    ensures
        closest_among(hits, n) is None <==> (forall|j: int| 0 <= j < n ==> hits[j] is None),
        closest_among(hits, n) matches Some((i, d)) ==> 0 <= i < n && hits[i] == Some(d),
        closest_among(hits, n) matches Some((i, OrderKey::Ordered(b))) ==> (forall|j: int|
            #![trigger hits[j]]
            0 <= j < n && is_ordered(hits[j]) ==> b <= key(hits[j]) && (j < i ==> b < key(hits[j]))),
        closest_among(hits, n) matches Some((i, OrderKey::Unordered)) ==> (forall|j: int|
            0 <= j < i ==> hits[j] is None),
    decreases n,
{
    if n > 0 {
        lemma_closest_among(hits, n - 1);
    }
}

/// Picks, among the objects, the one whose hit is closest to the ray's origin.
/// `hits[k]` is the hit of object `k`, `None` when the ray misses it.
/// Ties go to the object that comes first; a hit at an unordered distance is
/// kept only when it is the first hit.
pub fn closest_hit(hits: &Vec<Option<OrderKey>>) -> (r: Option<usize>)
    ensures
        r matches Some(i) ==> closest_of(hits@) == Some(i as int),
        r is None ==> closest_of(hits@) is None,
        r is None <==> (forall|j: int| 0 <= j < hits@.len() ==> hits@[j] is None),
        r matches Some(i) ==> i < hits@.len() && hits@[i as int] is Some,
        r matches Some(i) ==> (is_ordered(hits@[i as int]) ==> forall|j: int|
            #![trigger hits@[j]]
            0 <= j < hits@.len() && is_ordered(hits@[j]) ==> key(hits@[i as int]) <= key(hits@[j])
                && (j < i ==> key(hits@[i as int]) < key(hits@[j]))),
        r matches Some(i) ==> (hits@[i as int] == Some(OrderKey::Unordered) ==> forall|j: int|
            0 <= j < i ==> hits@[j] is None),
{
    let mut best: Option<(usize, OrderKey)> = None;
    let mut k: usize = 0;
    while k < hits.len()
        invariant
            k <= hits@.len(),
            match closest_among(hits@, k as int) {
                None => best is None,
                Some((i, d)) => best == Some((i as usize, d)),
            },
        decreases hits@.len() - k,
    {
        match hits[k] {
            None => {},
            Some(d) => {
                match best {
                    None => {
                        best = Some((k, d));
                    },
                    Some((_, b)) => {
                        let closer = match (b, d) {
                            (OrderKey::Ordered(bv), OrderKey::Ordered(dv)) => dv < bv,
                            _ => false,
                        };
                        if closer {
                            best = Some((k, d));
                        }
                    },
                }
            },
        }
        k = k + 1;
    }
    proof {
        lemma_closest_among(hits@, hits@.len() as int);
    }
    match best {
        None => None,
        Some((i, _)) => Some(i),
    }
}

/// Where a trace stands: the rays of the current level, the rays spawned so
/// far during it, the position of the next ray to trace, the number of levels
/// done, and whether the trace has ended.
pub struct TraceState<R> {
    pub active: Seq<R>,
    pub spawned: Seq<R>,
    pub cursor: int,
    pub bounce: int,
    pub finished: bool,
}

/// Where a trace of at most `depth` levels from `rays` starts.
pub open spec fn start_state<R>(depth: int, rays: Seq<R>) -> TraceState<R> {
    TraceState {
        active: rays,
        spawned: Seq::empty(),
        cursor: 0,
        bounce: 0,
        finished: depth == 0 || rays.len() == 0,
    }
}

/// Where a trace stands after the ray at `s.cursor` spawned `spawned`: on the
/// next ray of the level, else on the level of the rays spawned during this
/// one, the trace ending when that level is empty or the depth is reached.
pub open spec fn step<R>(s: TraceState<R>, depth: int, spawned: Seq<R>) -> TraceState<R> {
    let next = s.spawned + spawned;
    if s.cursor + 1 < s.active.len() {
        TraceState { active: s.active, spawned: next, cursor: s.cursor + 1, bounce: s.bounce, finished: false }
    } else {
        TraceState {
            active: next,
            spawned: Seq::empty(),
            cursor: 0,
            bounce: s.bounce + 1,
            finished: next.len() == 0 || s.bounce + 1 == depth,
        }
    }
}

/// Where a trace of at most `depth` levels from `rays` stands once its traced
/// rays spawned, in turn, the rays of `responses`.
pub open spec fn replay<R>(depth: int, rays: Seq<R>, responses: Seq<Seq<R>>) -> TraceState<R>
    decreases responses.len(),
{
    if responses.len() == 0 {
        start_state(depth, rays)
    } else {
        step(replay(depth, rays, responses.drop_last()), depth, responses.last())
    }
}

/// The walk of a trace through its bounce levels.
///
/// A trace starts from the rays that the lights emit. Each ray of the current
/// level is traced once, in order; tracing it yields one path segment and the
/// rays it spawns where it hits something. When a level is done, the rays
/// spawned during it form the next level. The trace ends after `depth`
/// levels, or as soon as a level spawns no ray.
pub struct Tracer<R, S> {
    active: Vec<R>,
    spawned: Vec<R>,
    cursor: usize,
    bounce: u32,
    depth: u32,
    finished: bool,
    paths: Vec<S>,
    initial: Ghost<Seq<R>>,
    responses: Ghost<Seq<Seq<R>>>,
}

impl<R, S> Tracer<R, S> {
    /// The rays of the current level.
    pub closed spec fn active_rays(&self) -> Seq<R> {
        self.active@
    }

    /// The rays spawned so far during the current level.
    pub closed spec fn spawned_rays(&self) -> Seq<R> {
        self.spawned@
    }

    /// The position, in the current level, of the next ray to trace.
    pub closed spec fn cursor(&self) -> int {
        self.cursor as int
    }

    /// The number of levels done.
    pub closed spec fn bounce(&self) -> int {
        self.bounce as int
    }

    /// The number of levels that the trace may go through.
    pub closed spec fn depth(&self) -> int {
        self.depth as int
    }

    /// Whether the trace has ended.
    pub closed spec fn finished(&self) -> bool {
        self.finished
    }

    /// The path segments recorded so far, one for each ray traced.
    pub closed spec fn paths(&self) -> Seq<S> {
        self.paths@
    }

    /// The rays the trace started from.
    pub closed spec fn initial_rays(&self) -> Seq<R> {
        self.initial@
    }

    /// The rays spawned by each ray traced so far, in the order they were traced.
    pub closed spec fn responses(&self) -> Seq<Seq<R>> {
        self.responses@
    }

    /// Where the trace stands.
    pub open spec fn state(&self) -> TraceState<R> {
        TraceState {
            active: self.active_rays(),
            spawned: self.spawned_rays(),
            cursor: self.cursor(),
            bounce: self.bounce(),
            finished: self.finished(),
        }
    }

    pub closed spec fn wf(&self) -> bool {
        &&& self.cursor <= self.active@.len()
        &&& self.bounce <= self.depth
        &&& !self.finished ==> self.bounce < self.depth && self.cursor < self.active@.len()
        &&& self.state() == replay(self.depth as int, self.initial@, self.responses@)
        &&& self.paths@.len() == self.responses@.len()
    }

    /// Where a trace stands is determined by its depth, the rays it started
    /// from and the rays each traced ray spawned; it holds one path segment for
    /// each ray traced.
    pub proof fn lemma_replays(&self)
        requires
            self.wf(),
        ensures
            self.state() == replay(self.depth(), self.initial_rays(), self.responses()),
            self.paths().len() == self.responses().len(),
    {
    }

    /// Starts a trace of at most `depth` levels from the rays `rays`.
    pub fn new(depth: u32, rays: Vec<R>) -> (t: Self)
        ensures
            t.wf(),
            t.active_rays() == rays@,
            t.spawned_rays() == Seq::<R>::empty(),
            t.cursor() == 0,
            t.bounce() == 0,
            t.depth() == depth,
            t.paths() == Seq::<S>::empty(),
            t.finished() == (depth == 0 || rays@.len() == 0),
            t.initial_rays() == rays@,
            t.responses() == Seq::<Seq<R>>::empty(),
    {
        let finished = depth == 0 || rays.len() == 0;
        Tracer {
            active: rays,
            spawned: Vec::new(),
            cursor: 0,
            bounce: 0,
            depth,
            finished,
            paths: Vec::new(),
            initial: Ghost(rays@),
            responses: Ghost(Seq::empty()),
        }
    }

    /// Whether the trace has ended.
    pub fn is_finished(&self) -> (r: bool)
        ensures
            r == self.finished(),
    {
        self.finished
    }

    /// The ray to trace next, or `None` once the trace has ended.
    pub fn current(&self) -> (r: Option<&R>)
        requires
            self.wf(),
        ensures
            r is None <==> self.finished(),
            r matches Some(ray) ==> *ray == self.active_rays()[self.cursor()],
    {
        if self.finished {
            None
        } else {
            Some(&self.active[self.cursor])
        }
    }

    /// Records what tracing the current ray gave: the path segment it drew and
    /// the rays it spawned (none when it hit nothing), and moves on to the next
    /// ray, to the next level when the current one is done, or to the end.
    pub fn record(&mut self, segment: S, spawned: Vec<R>)
        requires
            old(self).wf(),
            !old(self).finished(),
        ensures
            final(self).wf(),
            final(self).depth() == old(self).depth(),
            final(self).paths() == old(self).paths().push(segment),
            final(self).initial_rays() == old(self).initial_rays(),
            final(self).responses() == old(self).responses().push(spawned@),
            final(self).state() == step(old(self).state(), old(self).depth(), spawned@),
            old(self).cursor() + 1 < old(self).active_rays().len() ==> {
                &&& final(self).active_rays() == old(self).active_rays()
                &&& final(self).spawned_rays() == old(self).spawned_rays() + spawned@
                &&& final(self).cursor() == old(self).cursor() + 1
                &&& final(self).bounce() == old(self).bounce()
                &&& !final(self).finished()
            },
            old(self).cursor() + 1 == old(self).active_rays().len() ==> {
                &&& final(self).bounce() == old(self).bounce() + 1
                &&& final(self).cursor() == 0
                &&& final(self).spawned_rays() == Seq::<R>::empty()
                &&& final(self).active_rays() == old(self).spawned_rays() + spawned@
                &&& final(self).finished() == (final(self).active_rays().len() == 0
                    || final(self).bounce() == final(self).depth())
            },
            // every step makes progress: it moves to a later ray of the same
            // level or to a later level, and levels are bounded by the depth
            final(self).bounce() > old(self).bounce() || (final(self).bounce() == old(self).bounce()
                && final(self).cursor() > old(self).cursor()),
            final(self).bounce() <= final(self).depth(),
    {
        let level_len = self.active.len();
        proof {
            let pushed = self.responses@.push(spawned@);
            assert(pushed.drop_last() =~= self.responses@);
            self.responses@ = pushed;
        }
        self.paths.push(segment);
        let mut spawned = spawned;
        self.spawned.append(&mut spawned);
        self.cursor = self.cursor + 1;
        if self.cursor == level_len {
            self.bounce = self.bounce + 1;
            let mut next: Vec<R> = Vec::new();
            std::mem::swap(&mut next, &mut self.spawned);
            self.active = next;
            self.cursor = 0;
            self.finished = self.active.len() == 0 || self.bounce == self.depth;
        }
    }

    /// The path segments of the trace, one for each ray traced, in the order
    /// the rays were traced.
    pub fn into_paths(self) -> (r: Vec<S>)
        ensures
            r@ == self.paths(),
    {
        self.paths
    }
}

} // verus!
