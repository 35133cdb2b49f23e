//! The decisions of a trace.
//!
//! A trace follows one ray from a microphone. Where the ray starts, and
//! again wherever it has bounced, the speaker is looked for, and a response
//! is heard if there is a free line to it. Then the ray is cast against
//! every wall and bounces off the nearest one it hits. The trace ends when
//! the ray hits no wall, or when it has hit one wall more than it may bounce
//! off before it is heard.
//!
//! Casting and reflecting are the caller's business; this module holds what
//! is decided on their results: which hit is the nearest, whether the
//! speaker is reached, when the trace ends, which responses are heard with
//! how many bounces, and which rays are recorded.

use crate::model::{Space, WallIndex};
use crate::ray::{Length, Ray, RayHit};
use crate::response::{RayPurpose, RecordedRay, Recording, Response};
use vstd::prelude::*;

verus! {

/// Options of a trace.
#[derive(Debug, Clone, Copy)]
pub struct TracerConfig<S> {
    /// The speed of sound.
    pub speed_of_sound: S,
    /// The maximal number of times a traced ray can bounce off of walls
    /// before it is heard. The ray is followed until it hits the wall after
    /// that, or none.
    pub max_bounces: usize,
    /// Whether to record cast rays into the recording.
    pub record_rays: bool,
}

/// A hit of a ray on a wall.
#[derive(Debug, Clone, Copy)]
pub struct WallHit<P> {
    pub ray: RayHit<P>,
    pub wall: WallIndex,
}

/// A free line to the speaker.
#[derive(Debug, Clone, Copy)]
pub struct SpeakerTrace<P> {
    pub ray: Ray<P>,
    pub distance_to_speaker: Length,
}

/// Whether `hits[i]` is the nearest hit: a hit, no farther than any other,
/// and nearer than every hit before it.
pub open spec fn is_nearest<P>(hits: Seq<Option<RayHit<P>>>, i: int) -> bool {
    &&& 0 <= i < hits.len()
    &&& hits[i] is Some
    &&& forall|j: int|
        0 <= j < hits.len() && hits[j] is Some ==> hits[i]->0.ray_length.0
            <= hits[j]->0.ray_length.0
    &&& forall|j: int|
        0 <= j < i && hits[j] is Some ==> hits[i]->0.ray_length.0 < hits[j]->0.ray_length.0
}

/// Whether nothing was hit.
pub open spec fn all_missed<P>(hits: Seq<Option<RayHit<P>>>) -> bool {
    forall|j: int| 0 <= j < hits.len() ==> hits[j] is None
}

/// At most one hit is the nearest.
pub proof fn lemma_nearest_is_unique<P>(hits: Seq<Option<RayHit<P>>>, i: int, j: int)
    requires
        is_nearest(hits, i),
        is_nearest(hits, j),
    ensures
        i == j,
{
    if i < j {
        assert(hits[j]->0.ray_length.0 < hits[i]->0.ray_length.0);
    } else if j < i {
        assert(hits[i]->0.ray_length.0 < hits[j]->0.ray_length.0);
    }
}

/// Picks the wall that a ray hits first.
///
/// `hits` holds, for each wall of the space in the order of the walls, what
/// the ray hit on that wall, if anything. The result is the nearest hit with
/// the handle of its wall; of several at the same distance, the one on the
/// wall that comes first. It is `None` if the ray hit no wall.
pub fn trace_to_walls<P: Copy>(hits: &[Option<RayHit<P>>]) -> (closest: Option<WallHit<P>>)
    ensures
        match closest {
            Some(hit) => is_nearest(hits@, hit.wall.0 as int) && hits@[hit.wall.0 as int] == Some(
                hit.ray,
            ),
            None => all_missed(hits@),
        },
{
    let mut closest: Option<WallHit<P>> = None;
    let mut wall_index: usize = 0;
    while wall_index < hits.len()
        invariant
            wall_index <= hits.len(),
            match closest {
                Some(hit) => is_nearest(hits@.take(wall_index as int), hit.wall.0 as int)
                    && hits@[hit.wall.0 as int] == Some(hit.ray),
                None => all_missed(hits@.take(wall_index as int)),
            },
        decreases hits.len() - wall_index,
    {
        if let Some(hit) = hits[wall_index] {
            let nearer = match closest {
                Some(closest_hit) => hit.ray_length.0 < closest_hit.ray.ray_length.0,
                None => true,
            };
            if nearer {
                closest = Some(WallHit { ray: hit, wall: WallIndex(wall_index) });
            }
        }
        wall_index += 1;
    }
    assert(hits@.take(wall_index as int) == hits@);
    closest
}

/// Decides whether a ray towards the speaker reaches it.
///
/// `ray` points from where the traced ray is now at the speaker, which is
/// `distance` away, and `hits` holds what `ray` hit on each wall of the
/// space. The speaker is reached if `ray` hits no wall, or if the nearest
/// wall it hits is not nearer than the speaker.
pub fn trace_to_speaker<P: Copy>(
    ray: Ray<P>,
    distance: Length,
    hits: &[Option<RayHit<P>>],
) -> (trace: Option<SpeakerTrace<P>>)
    ensures
        speaker_in_sight(hits@, distance) ==> trace == Some(
            SpeakerTrace { ray, distance_to_speaker: distance },
        ),
        !speaker_in_sight(hits@, distance) ==> trace is None,
{
    let trace = SpeakerTrace { ray, distance_to_speaker: distance };
    match trace_to_walls(hits) {
        Some(hit) => {
            if hit.ray.ray_length.0 >= distance.0 {
                Some(trace)
            } else {
                None
            }
        },
        None => Some(trace),
    }
}

/// Whether no hit is nearer than `distance`.
pub open spec fn speaker_in_sight<P>(hits: Seq<Option<RayHit<P>>>, distance: Length) -> bool {
    forall|j: int|
        0 <= j < hits.len() && hits[j] is Some ==> (#[trigger] hits[j])->0.ray_length.0
            >= distance.0
}

/// Where a trace stands.
#[derive(Debug, Clone, Copy, PartialEq, Eq, Structural)]
pub enum TraceState {
    /// The ray is still travelling.
    Bouncing,
    /// The ray hit no wall and left the space.
    Absorbed,
    /// The ray has hit as many walls as it may.
    Exhausted,
}

/// The state a trace is in after a scan of the walls, given the state it was
/// in, the number of walls hit before, and whether the scan found a hit.
///
/// A travelling ray that hits nothing is absorbed. One that hits a wall goes
/// on travelling unless that was hit number `max_bounces + 1`. A trace that
/// has ended stays as it is.
pub open spec fn state_after_scan(
    state: TraceState,
    bounces: nat,
    max_bounces: nat,
    hit: bool,
) -> TraceState {
    match state {
        TraceState::Bouncing => if !hit {
            TraceState::Absorbed
        } else if bounces < max_bounces {
            TraceState::Bouncing
        } else {
            TraceState::Exhausted
        },
        _ => state,
    }
}

/// The number of walls hit after a scan of the walls: one more if the ray
/// was travelling and the scan found a hit.
pub open spec fn bounces_after_scan(state: TraceState, bounces: nat, hit: bool) -> nat {
    if state == TraceState::Bouncing && hit {
        bounces + 1
    } else {
        bounces
    }
}

/// The state of a trace after the scans `scans`, each of which found a hit
/// or not, from its start.
pub open spec fn state_after_scans(max_bounces: nat, scans: Seq<bool>) -> TraceState
    decreases scans.len(),
{
    if scans.len() == 0 {
        TraceState::Bouncing
    } else {
        state_after_scan(
            state_after_scans(max_bounces, scans.drop_last()),
            bounces_after_scans(max_bounces, scans.drop_last()),
            max_bounces,
            scans.last(),
        )
    }
}

/// The number of walls hit in a trace after the scans `scans` from its
/// start.
pub open spec fn bounces_after_scans(max_bounces: nat, scans: Seq<bool>) -> nat
    decreases scans.len(),
{
    if scans.len() == 0 {
        0
    } else {
        bounces_after_scan(
            state_after_scans(max_bounces, scans.drop_last()),
            bounces_after_scans(max_bounces, scans.drop_last()),
            scans.last(),
        )
    }
}

/// The number of scans at the start of `scans` that found a hit, up to the
/// first that found none.
pub open spec fn leading_hits(scans: Seq<bool>) -> nat
    decreases scans.len(),
{
    if scans.len() == 0 || !scans.first() {
        0
    } else {
        1 + leading_hits(scans.drop_first())
    }
}

/// Hits at the start of `scans` are counted through an appended scan only
/// if every scan before it found a hit.
proof fn lemma_leading_hits_push(scans: Seq<bool>, hit: bool)
    ensures
        leading_hits(scans.push(hit)) == if leading_hits(scans) == scans.len() && hit {
            scans.len() + 1
        } else {
            leading_hits(scans)
        },
        leading_hits(scans) <= scans.len(),
    decreases scans.len(),
{
    if scans.len() == 0 {
        assert(scans.push(hit).drop_first() =~= scans);
        assert(leading_hits(scans.push(hit).drop_first()) == 0);
    } else {
        lemma_leading_hits_push(scans.drop_first(), hit);
        assert(scans.push(hit).drop_first() =~= scans.drop_first().push(hit));
    }
}

/// A trace runs until its ray has hit `max_bounces + 1` walls or has hit
/// none, whichever comes first, and then stays as it is.
///
/// After any scans, the number of walls hit is the number of scans at the
/// start that found a hit, but no more than `max_bounces + 1`. The trace is
/// exhausted if that limit was reached, absorbed if a scan found no hit
/// before it was, and still travelling otherwise.
pub proof fn lemma_trace_runs_to_its_end(max_bounces: nat, scans: Seq<bool>)
    ensures
        bounces_after_scans(max_bounces, scans) == if leading_hits(scans) <= max_bounces {
            leading_hits(scans)
        } else {
            max_bounces + 1
        },
        state_after_scans(max_bounces, scans) == if leading_hits(scans) > max_bounces {
            TraceState::Exhausted
        } else if leading_hits(scans) < scans.len() {
            TraceState::Absorbed
        } else {
            TraceState::Bouncing
        },
    decreases scans.len(),
{
    if scans.len() > 0 {
        lemma_trace_runs_to_its_end(max_bounces, scans.drop_last());
        lemma_leading_hits_push(scans.drop_last(), scans.last());
        assert(scans.drop_last().push(scans.last()) =~= scans);
    }
}

/// Raytracer state: the space to trace in and the options to trace with.
#[derive(Debug, Clone, Copy)]
pub struct Tracer<'r, P, S> {
    pub space: &'r Space<P, S>,
    pub config: &'r TracerConfig<S>,
}

impl<'r, P, S> Tracer<'r, P, S> {
    /// A tracer for `space` with the options `config`.
    pub fn new(space: &'r Space<P, S>, config: &'r TracerConfig<S>) -> (tracer: Self)
        ensures
            tracer.space == space,
            tracer.config == config,
    {
        Self { space, config }
    }

    /// Starts the trace of one ray: nothing hit, nothing heard, nothing
    /// recorded.
    pub fn begin(&self) -> (trace: Trace<P, S>)
        requires
            self.config.max_bounces < usize::MAX,
        ensures
            trace.wf(),
            trace.state() == TraceState::Bouncing,
            trace.bounces() == 0,
            trace.max_bounces() == self.config.max_bounces,
            trace.records() == self.config.record_rays,
            trace.responses() == Seq::<Response<S>>::empty(),
            trace.rays() == Seq::<RecordedRay<P>>::empty(),
    {
        Trace {
            state: TraceState::Bouncing,
            bounces: 0,
            max_bounces: self.config.max_bounces,
            record_rays: self.config.record_rays,
            responses: Vec::new(),
            rays: Vec::new(),
        }
    }
}

/// The trace of one ray while it runs.
pub struct Trace<P, S> {
    state: TraceState,
    bounces: usize,
    max_bounces: usize,
    record_rays: bool,
    responses: Vec<Response<S>>,
    rays: Vec<RecordedRay<P>>,
}

impl<P, S> Trace<P, S> {
    /// The representation invariant: no more walls were hit than may be, and
    /// the trace is exhausted exactly when that many were.
    pub closed spec fn wf(&self) -> bool {
        &&& self.max_bounces < usize::MAX
        &&& self.bounces <= self.max_bounces + 1
        &&& self.state == TraceState::Exhausted <==> self.bounces == self.max_bounces + 1
        &&& !self.record_rays ==> self.rays@.len() == 0
        &&& forall|i: int|
            0 <= i < self.responses@.len() ==> (#[trigger] self.responses@[i]).bounces
                <= self.bounces
        &&& forall|i: int|
            0 <= i < self.responses@.len() ==> (#[trigger] self.responses@[i]).bounces
                <= self.max_bounces
        &&& forall|i: int, j: int|
            0 <= i <= j < self.responses@.len() ==> self.responses@[i].bounces
                <= self.responses@[j].bounces
    }

    /// Where the trace stands, in specifications.
    pub closed spec fn spec_state(&self) -> TraceState {
        self.state
    }

    /// The number of walls hit so far, in specifications.
    pub closed spec fn spec_bounces(&self) -> usize {
        self.bounces
    }

    /// The limit the trace was started with.
    pub closed spec fn max_bounces(&self) -> usize {
        self.max_bounces
    }

    /// Whether the trace records its rays.
    pub closed spec fn records(&self) -> bool {
        self.record_rays
    }

    /// The responses heard so far, in the order of hearing.
    pub closed spec fn responses(&self) -> Seq<Response<S>> {
        self.responses@
    }

    /// The rays recorded so far, in the order of casting.
    pub closed spec fn rays(&self) -> Seq<RecordedRay<P>> {
        self.rays@
    }

    /// A valid trace has hit at most `max_bounces + 1` walls, is exhausted
    /// exactly when it has hit that many, and has recorded nothing unless it
    /// records. No response has more bounces than walls were hit or than the
    /// limit allows, and none has fewer bounces than one heard before it.
    pub proof fn lemma_trace_is_bounded(&self)
        requires
            self.wf(),
        ensures
            self.bounces() <= self.max_bounces() + 1 <= usize::MAX,
            self.state() == TraceState::Exhausted <==> self.bounces() == self.max_bounces() + 1,
            !self.records() ==> self.rays().len() == 0,
            forall|i: int|
                0 <= i < self.responses().len() ==> (#[trigger] self.responses()[i]).bounces
                    <= self.bounces(),
            forall|i: int|
                0 <= i < self.responses().len() ==> (#[trigger] self.responses()[i]).bounces
                    <= self.max_bounces(),
            forall|i: int, j: int|
                0 <= i <= j < self.responses().len() ==> self.responses()[i].bounces
                    <= self.responses()[j].bounces,
    {
    }

    /// Where the trace stands.
    #[verifier::when_used_as_spec(spec_state)]
    pub fn state(&self) -> (state: TraceState)
        ensures
            state == self.spec_state(),
    {
        self.state
    }

    /// The number of walls hit so far.
    #[verifier::when_used_as_spec(spec_bounces)]
    pub fn bounces(&self) -> (bounces: usize)
        ensures
            bounces == self.spec_bounces(),
    {
        self.bounces
    }

    /// Whether the ray is still travelling.
    pub fn is_bouncing(&self) -> (travelling: bool)
        ensures
            travelling <==> self.state() == TraceState::Bouncing,
    {
        matches!(self.state, TraceState::Bouncing)
    }

    /// Takes in a scan of the walls: `ray` was cast, and `hit` is the nearest
    /// wall it hit, if any.
    ///
    /// The state and the number of walls hit move on as
    /// [`state_after_scan`] and [`bounces_after_scan`] say. A hit of a
    /// travelling ray is recorded as a bounce if the trace records. Whether
    /// it records has no part in how the trace moves on.
    pub fn bounce(&mut self, ray: Ray<P>, hit: Option<WallHit<P>>)
        requires
            old(self).wf(),
        ensures
            final(self).wf(),
            final(self).max_bounces() == old(self).max_bounces(),
            final(self).records() == old(self).records(),
            final(self).state() == state_after_scan(
                old(self).state(),
                old(self).bounces() as nat,
                old(self).max_bounces() as nat,
                hit is Some,
            ),
            final(self).bounces() == bounces_after_scan(
                old(self).state(),
                old(self).bounces() as nat,
                hit is Some,
            ),
            final(self).responses() == old(self).responses(),
            final(self).rays() == if old(self).state() == TraceState::Bouncing && old(
                self,
            ).records() && hit is Some {
                old(self).rays().push(
                    RecordedRay { purpose: RayPurpose::Bounce, ray, hit: hit->0.ray },
                )
            } else {
                old(self).rays()
            },
    {
        if !self.is_bouncing() {
            return ;
        }
        match hit {
            Some(hit) => {
                if self.record_rays {
                    self.rays.push(RecordedRay { purpose: RayPurpose::Bounce, ray, hit: hit.ray });
                }
                if self.bounces == self.max_bounces {
                    self.state = TraceState::Exhausted;
                }
                self.bounces += 1;
            },
            None => {
                self.state = TraceState::Absorbed;
            },
        }
    }

    /// Takes in a free line to the speaker: `trace` is the line found,
    /// `speaker_position` is where the speaker stands, and `time` and
    /// `loudness` are when and how loud the sound arrives along it.
    ///
    /// While the ray is travelling, a response is heard with as many bounces
    /// as walls were hit so far, and the line is recorded, if the trace
    /// records, as a ray that ends at the speaker. Once the trace has ended
    /// nothing is heard any more. Where the trace stands does not change.
    pub fn reach(&mut self, trace: SpeakerTrace<P>, speaker_position: P, time: S, loudness: S)
        requires
            old(self).wf(),
        ensures
            final(self).wf(),
            final(self).max_bounces() == old(self).max_bounces(),
            final(self).records() == old(self).records(),
            final(self).state() == old(self).state(),
            final(self).bounces() == old(self).bounces(),
            final(self).responses() == if old(self).state() == TraceState::Bouncing {
                old(self).responses().push(
                    Response { time, loudness, bounces: old(self).bounces() },
                )
            } else {
                old(self).responses()
            },
            final(self).rays() == if old(self).state() == TraceState::Bouncing && old(
                self,
            ).records() {
                old(self).rays().push(
                    RecordedRay {
                        purpose: RayPurpose::Trace,
                        ray: trace.ray,
                        hit: RayHit {
                            position: speaker_position,
                            ray_length: trace.distance_to_speaker,
                        },
                    },
                )
            } else {
                old(self).rays()
            },
    {
        if !self.is_bouncing() {
            return ;
        }
        self.responses.push(Response { time, loudness, bounces: self.bounces });
        if self.record_rays {
            self.rays.push(
                RecordedRay {
                    purpose: RayPurpose::Trace,
                    ray: trace.ray,
                    hit: RayHit {
                        position: speaker_position,
                        ray_length: trace.distance_to_speaker,
                    },
                },
            );
        }
    }

    /// Ends the trace: the recording holds the responses heard and the rays
    /// recorded.
    pub fn finish(self) -> (recording: Recording<P, S>)
        ensures
            recording.responses@ == self.responses(),
            recording.rays@ == self.rays(),
    {
        Recording { responses: self.responses, rays: self.rays }
    }
}

} // verus!
