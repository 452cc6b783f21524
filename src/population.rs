//! The population of spawned world objects: clustered spawning around a
//! moving reference point under a global cap, culling by distance, and the
//! fragments left by a destroyed rock.
use vstd::prelude::*;

use crate::geometry::{
    dist2, fine_len, is_isqrt, isqrt, normalized_to, scale_to_length, translate, Point, Spin,
};
use crate::random::{random_direction, random_range, scatter_in_disk, DIRECTION_RESOLUTION};
use crate::timer::{Timer, TimerMode};

verus! {

/// Half a turn, in milliradians.
pub const PI_MILLIRADIANS: i64 = 3142;

/// Chance, in thousandths, that an object of a timed cluster is a mineral.
pub const CHANCE_OF_MINERAL: u32 = 50;

/// Size of the first cluster, spawned around the origin.
pub const FIRST_CLUSTER_SIZE: u32 = 50;

/// Minerals held by a mineral spawned in a cluster, in micro-units.
pub const CLUSTER_MINERAL_AMOUNT: i64 = 2_000_000;

/// Fragments left by a destroyed rock.
pub const FRAGMENTS_PER_ROCK: usize = 3;

/// Minerals held by one fragment, in micro-units.
pub const FRAGMENT_AMOUNT: i64 = 1_000_000;

/// Size of a fragment, in thousandths of a full object.
pub const FRAGMENT_SCALE: u32 = 500;

/// Speed of a fragment and top drift speed of a spawned object, per axis, in
/// milli-units per second.
pub const DRIFT_SPEED: i64 = 1000;

/// The count of live counted objects, against a fixed cap.
#[derive(Debug, Clone, Copy, PartialEq, Eq, Structural)]
pub struct RockLimit {
    pub current: u32,
    pub limit: u32,
}

/// One change to the population count.
#[derive(Debug, Clone, Copy, PartialEq, Eq, Structural)]
pub enum PopulationChange {
    /// A cluster of this many objects asks for room.
    Reserve(u32),
    /// A counted object is gone.
    Release,
}

impl RockLimit {
    pub open spec fn wf(&self) -> bool {
        self.current <= self.limit
    }

    /// Whether `n` more objects fit under the cap.
    pub open spec fn accepts(self, n: u32) -> bool {
        self.current + n <= self.limit
    }

    /// The count after asking for `n`: all of them, or none.
    pub open spec fn reserved(self, n: u32) -> RockLimit {
        if self.accepts(n) {
            RockLimit { current: (self.current + n) as u32, ..self }
        } else {
            self
        }
    }

    /// The count after one counted object is gone; it never drops below zero.
    pub open spec fn released(self) -> RockLimit {
        if self.current > 0 {
            RockLimit { current: (self.current - 1) as u32, ..self }
        } else {
            self
        }
    }

    pub open spec fn changed(self, c: PopulationChange) -> RockLimit {
        match c {
            PopulationChange::Reserve(n) => self.reserved(n),
            PopulationChange::Release => self.released(),
        }
    }

    /// No object is live yet.
    pub fn new(limit: u32) -> (r: RockLimit)
        ensures
            r.wf(),
            r == (RockLimit { current: 0, limit }),
    {
        RockLimit { current: 0, limit }
    }

    /// Reserves room for a whole cluster of `n`, or for none of it.
    pub fn try_reserve(&mut self, n: u32) -> (accepted: bool)
        requires
            old(self).wf(),
        ensures
            accepted == old(self).accepts(n),
            *final(self) == old(self).reserved(n),
            final(self).wf(),
    {
        if n as u64 + self.current as u64 > self.limit as u64 {
            false
        } else {
            self.current = self.current + n;
            true
        }
    }

    /// Counts one counted object as gone.
    pub fn release(&mut self)
        requires
            old(self).wf(),
        ensures
            *final(self) == old(self).released(),
            final(self).wf(),
    {
        if self.current > 0 {
            self.current = self.current - 1;
        }
    }
}

impl Default for RockLimit {
    /// Room for 150 objects, none live.
    fn default() -> (r: RockLimit)
        ensures
            r.wf(),
            r == (RockLimit { current: 0, limit: 150 }),
    {
        RockLimit::new(150)
    }
}

/// The count after each change in turn.
pub open spec fn after_changes(b: RockLimit, changes: Seq<PopulationChange>) -> RockLimit
    decreases changes.len(),
{
    if changes.len() == 0 {
        b
    } else {
        after_changes(b, changes.drop_last()).changed(changes.last())
    }
}

/// Whatever sequence of spawn requests and removals arrives, the live count
/// never exceeds the cap, and the cap itself never changes.
pub proof fn lemma_population_within_cap(b: RockLimit, changes: Seq<PopulationChange>)
    requires
        b.wf(),
    ensures
        after_changes(b, changes).current <= b.limit,
        after_changes(b, changes).limit == b.limit,
    decreases changes.len(),
{
    if changes.len() > 0 {
        lemma_population_within_cap(b, changes.drop_last());
    }
}

/// Removes an object once it is farther than `max_distance` milli-units from
/// the reference point.
#[derive(Debug, Clone, Copy, PartialEq, Eq, Structural)]
pub struct Cull {
    pub max_distance: i64,
}

impl Cull {
    pub open spec fn culls(self, position: Point, reference: Point) -> bool {
        dist2(position, reference) > self.max_distance * self.max_distance
    }

    /// Whether an object at `position` is to be removed, by squared distance.
    pub fn should_cull(&self, position: Point, reference: Point) -> (r: bool)
        ensures
            r == self.culls(position, reference),
    {
        position.farther_than(reference, self.max_distance)
    }
}

/// Cull radius of every spawned object, in milli-units: 75 units.
pub const DEFAULT_CULL_DISTANCE: i64 = 75_000;

impl Default for Cull {
    /// 75 units.
    fn default() -> (r: Cull)
        ensures
            r == (Cull { max_distance: DEFAULT_CULL_DISTANCE }),
    {
        Cull { max_distance: DEFAULT_CULL_DISTANCE }
    }
}

/// An object exactly at its cull radius stays; one strictly beyond it goes.
pub proof fn lemma_cull_threshold(c: Cull, position: Point, reference: Point)
    ensures
        dist2(position, reference) == c.max_distance * c.max_distance ==> !c.culls(
            position,
            reference,
        ),
        dist2(position, reference) > c.max_distance * c.max_distance ==> c.culls(
            position,
            reference,
        ),
{
}

/// What a tracked object is, for the population count: only rocks are counted
/// when they go.
#[derive(Debug, Clone, Copy, PartialEq, Eq, Structural)]
pub enum ObjectKind {
    Rock,
    Collectible,
    Other,
}

/// A live object that the population manager may remove.
#[derive(Debug, Clone, Copy, PartialEq, Eq, Structural)]
pub struct PopulationEntry {
    pub entity: u64,
    pub kind: ObjectKind,
    pub position: Point,
    pub cull: Option<Cull>,
}

pub open spec fn is_culled(o: PopulationEntry, reference: Point) -> bool {
    match o.cull {
        Some(c) => c.culls(o.position, reference),
        None => false,
    }
}

/// Handles of the objects of `objects` that are culled, in order.
pub open spec fn culled_entities(objects: Seq<PopulationEntry>, reference: Point) -> Seq<u64>
    decreases objects.len(),
{
    if objects.len() == 0 {
        seq![]
    } else {
        let rest = culled_entities(objects.drop_last(), reference);
        if is_culled(objects.last(), reference) {
            rest.push(objects.last().entity)
        } else {
            rest
        }
    }
}

/// The count after the culled rocks of `objects` are released.
pub open spec fn count_after_culling(b: RockLimit, objects: Seq<PopulationEntry>, reference: Point) -> RockLimit
    decreases objects.len(),
{
    if objects.len() == 0 {
        b
    } else {
        let before = count_after_culling(b, objects.drop_last(), reference);
        if is_culled(objects.last(), reference) && objects.last().kind == ObjectKind::Rock {
            before.released()
        } else {
            before
        }
    }
}

/// Picks the objects to remove this step: those with a cull radius that lie
/// beyond it. Each culled rock is released from the count.
pub fn cull_far_away(objects: &Vec<PopulationEntry>, reference: Point, limit: &mut RockLimit) -> (removed:
    Vec<u64>)
    requires
        old(limit).wf(),
    ensures
        removed@ == culled_entities(objects@, reference),
        *final(limit) == count_after_culling(*old(limit), objects@, reference),
        final(limit).wf(),
{
    let ghost b0 = *limit;
    let mut removed: Vec<u64> = Vec::new();
    let mut i: usize = 0;
    while i < objects.len()
        invariant
            i <= objects@.len(),
            limit.wf(),
            removed@ == culled_entities(objects@.take(i as int), reference),
            *limit == count_after_culling(b0, objects@.take(i as int), reference),
        decreases objects@.len() - i,
    {
        let o = objects[i];
        let culled = match o.cull {
            Some(c) => c.should_cull(o.position, reference),
            None => false,
        };
        if culled {
            removed.push(o.entity);
            if o.kind == ObjectKind::Rock {
                limit.release();
            }
        }
        proof {
            let t = objects@.take(i as int + 1);
            assert(t.drop_last() =~= objects@.take(i as int));
            assert(t.last() == o);
        }
        i = i + 1;
    }
    proof {
        assert(objects@.take(i as int) =~= objects@);
    }
    removed
}

/// A request to spawn a cluster: how many objects, around which point, and
/// the chance in thousandths that each one is a mineral.
#[derive(Debug, Clone, Copy, PartialEq, Eq, Structural)]
pub struct SpawnEvent {
    pub number_of_rocks: u32,
    pub centre_of_region: Point,
    pub chance_of_mineral: u32,
}

/// Periodically asks for clusters of objects at a random distance
/// (in milli-units) and direction from the reference point.
#[derive(Debug, Clone, Copy)]
pub struct RockSpawner {
    pub min_cluster_size: u32,
    pub max_cluster_size: u32,
    pub min_spawn_distance: i64,
    pub max_spawn_distance: i64,
    pub spawn_timer: Timer,
}

/// Whether `c` lies `distance` away from `reference` along `direction`,
/// coordinates rounded toward zero.
pub open spec fn is_cluster_centre(c: Point, reference: Point, direction: Point, distance: int) -> bool {
    exists|len: int|
        fine_len(direction, len) && c == translate(
            reference,
            normalized_to(direction, distance, len),
        )
}

/// Whether `d` is a direction that `random_direction` can give.
pub open spec fn is_direction(d: Point) -> bool {
    &&& d.x != 0 || d.y != 0
    &&& -DIRECTION_RESOLUTION <= d.x <= DIRECTION_RESOLUTION
    &&& -DIRECTION_RESOLUTION <= d.y <= DIRECTION_RESOLUTION
}

/// The point `distance` milli-units from `reference` along `direction`.
pub fn cluster_centre(reference: Point, direction: Point, distance: i64) -> (c: Point)
    requires
        is_direction(direction),
        distance >= 0,
    ensures
        is_cluster_centre(c, reference, direction, distance as int),
{
    let offset = scale_to_length(direction, distance);
    reference.translated(offset)
}

impl RockSpawner {
    pub open spec fn wf(&self) -> bool {
        &&& self.spawn_timer.wf()
        &&& self.spawn_timer.mode == TimerMode::Repeating
        &&& self.min_cluster_size <= self.max_cluster_size
        &&& 0 <= self.min_spawn_distance <= self.max_spawn_distance
    }

    /// Whether `ev` is a cluster request that this spawner may make around
    /// `reference`.
    pub open spec fn may_request(&self, ev: SpawnEvent, reference: Point) -> bool {
        &&& self.min_cluster_size <= ev.number_of_rocks <= self.max_cluster_size
        &&& ev.chance_of_mineral == CHANCE_OF_MINERAL
        &&& exists|d: Point, dist: int|
            #![trigger is_cluster_centre(ev.centre_of_region, reference, d, dist)]
            is_direction(d) && self.min_spawn_distance <= dist <= self.max_spawn_distance
                && is_cluster_centre(ev.centre_of_region, reference, d, dist)
    }

    /// Advances the spawn timer by `dt` milliseconds and asks for one cluster
    /// each time it completes, each at a fresh random size, direction and
    /// distance.
    pub fn request_clusters(&mut self, dt: u64, reference: Point) -> (r: Vec<SpawnEvent>)
        requires
            old(self).wf(),
        ensures
            final(self).wf(),
            *final(self) == (RockSpawner {
                spawn_timer: old(self).spawn_timer.ticked(dt as nat),
                ..*old(self)
            }),
            r@.len() == final(self).spawn_timer.times_finished_this_tick,
            forall|i: int| 0 <= i < r@.len() ==> #[trigger] old(self).may_request(r@[i], reference),
    {
        self.spawn_timer.tick(dt);
        let times = self.spawn_timer.times_finished_this_tick();
        let mut r: Vec<SpawnEvent> = Vec::new();
        let mut k: u64 = 0;
        while k < times
            invariant
                self.wf(),
                k <= times,
                r@.len() == k,
                forall|i: int| 0 <= i < r@.len() ==> #[trigger] self.may_request(r@[i], reference),
            decreases times - k,
        {
            let dir = random_direction();
            let dist = random_range(self.min_spawn_distance, self.max_spawn_distance);
            let num = random_range(self.min_cluster_size as i64, self.max_cluster_size as i64) as u32;
            let centre = cluster_centre(reference, dir, dist);
            let ev = SpawnEvent {
                number_of_rocks: num,
                centre_of_region: centre,
                chance_of_mineral: CHANCE_OF_MINERAL,
            };
            proof {
                assert(is_direction(dir) && self.min_spawn_distance <= dist <= self.max_spawn_distance
                    && is_cluster_centre(ev.centre_of_region, reference, dir, dist as int));
                assert(exists|d: Point, dd: int|
                    #![trigger is_cluster_centre(ev.centre_of_region, reference, d, dd)]
                    is_direction(d) && self.min_spawn_distance <= dd <= self.max_spawn_distance
                        && is_cluster_centre(ev.centre_of_region, reference, d, dd));
            }
            r.push(ev);
            k = k + 1;
        }
        proof {
            assert forall|i: int| 0 <= i < r@.len() implies #[trigger] old(self).may_request(
                r@[i],
                reference,
            ) by {
                assert(self.may_request(r@[i], reference));
            }
        }
        r
    }
}

impl Default for RockSpawner {
    /// Clusters of 15 to 25, 35 to 50 units away, every five seconds.
    fn default() -> (r: RockSpawner)
        ensures
            r.wf(),
            r == (RockSpawner {
                min_cluster_size: 15,
                max_cluster_size: 25,
                min_spawn_distance: 35_000,
                max_spawn_distance: 50_000,
                spawn_timer: Timer::new_spec(5000, TimerMode::Repeating),
            }),
    {
        RockSpawner {
            min_cluster_size: 15,
            max_cluster_size: 25,
            min_spawn_distance: 35_000,
            max_spawn_distance: 50_000,
            spawn_timer: Timer::new(5000, TimerMode::Repeating),
        }
    }
}

/// The cluster asked for when a run starts: 50 objects around the origin.
pub fn first_cluster() -> (r: SpawnEvent)
    ensures
        r == (SpawnEvent {
            number_of_rocks: FIRST_CLUSTER_SIZE,
            centre_of_region: Point { x: 0, y: 0 },
            chance_of_mineral: CHANCE_OF_MINERAL,
        }),
{
    SpawnEvent {
        number_of_rocks: FIRST_CLUSTER_SIZE,
        centre_of_region: Point { x: 0, y: 0 },
        chance_of_mineral: CHANCE_OF_MINERAL,
    }
}

/// What a spawned object is.
#[derive(Debug, Clone, Copy, PartialEq, Eq, Structural)]
pub enum SpawnedKind {
    /// A plain rock, counted against the cap.
    Rock,
    /// A collectible holding `amount` micro-units of minerals.
    Mineral { amount: i64 },
}

/// An object to create: where, turned how, moving how, at what size (in
/// thousandths), and the cull radius it carries. Velocities are milli-units
/// per second.
#[derive(Debug, Clone, Copy, PartialEq, Eq, Structural)]
pub struct SpawnedObject {
    pub kind: SpawnedKind,
    pub position: Point,
    pub rotation: Spin,
    pub velocity: Point,
    pub angvel: Spin,
    pub scale: u32,
    pub cull: Option<Cull>,
}

/// The random values behind one object of a cluster: its offset from the
/// centre, orientation, drift, spin, and a roll in thousandths that decides
/// between rock and mineral.
#[derive(Debug, Clone, Copy, PartialEq, Eq, Structural)]
pub struct ObjectDraw {
    pub offset: Point,
    pub rotation: Spin,
    pub velocity: Point,
    pub angvel: Spin,
    pub roll: u32,
}

pub open spec fn is_angle_spin(s: Spin) -> bool {
    &&& -PI_MILLIRADIANS <= s.x <= PI_MILLIRADIANS
    &&& -PI_MILLIRADIANS <= s.y <= PI_MILLIRADIANS
    &&& -PI_MILLIRADIANS <= s.z <= PI_MILLIRADIANS
}

/// Whether `d` is a draw that `draw_object(radius)` can make.
pub open spec fn is_draw(d: ObjectDraw, radius: int) -> bool {
    &&& dist2(d.offset, Point { x: 0, y: 0 }) < radius * radius || d.offset == (Point { x: 0, y: 0 })
    &&& is_angle_spin(d.rotation)
    &&& -DRIFT_SPEED <= d.velocity.x <= DRIFT_SPEED
    &&& -DRIFT_SPEED <= d.velocity.y <= DRIFT_SPEED
    &&& is_angle_spin(d.angvel)
    &&& d.roll <= 1000
}

/// The object made from `d` in a cluster around `centre`: a rock when the
/// roll is above the chance of a mineral, else a mineral.
pub open spec fn cluster_object_spec(centre: Point, d: ObjectDraw, chance: u32) -> SpawnedObject {
    SpawnedObject {
        kind: if d.roll > chance {
            SpawnedKind::Rock
        } else {
            SpawnedKind::Mineral { amount: CLUSTER_MINERAL_AMOUNT }
        },
        position: translate(centre, d.offset),
        rotation: d.rotation,
        velocity: d.velocity,
        angvel: d.angvel,
        scale: 1000,
        cull: Some(Cull { max_distance: DEFAULT_CULL_DISTANCE }),
    }
}

/// Squared radius, in milli-units, of the disk that holds a cluster of `n`:
/// `16 n / pi` square units, so that the area grows with the count
/// (pi taken as 355/113).
pub open spec fn cluster_radius_sq(n: u32) -> int {
    1_808_000_000 * n / 355
}

/// Radius of the disk that holds a cluster of `n` objects.
pub fn cluster_radius(n: u32) -> (r: i64)
    ensures
        is_isqrt(cluster_radius_sq(n), r as int),
{
    let sq: u64 = 1_808_000_000u64 * n as u64 / 355;
    let r = isqrt(sq);
    assert(r < 0x1_0000_0000) by (nonlinear_arith)
        requires r * r <= sq, sq < 0x1_0000_0000 * 0x1_0000_0000;
    r as i64
}

/// One object of a cluster around `centre`, from its draw.
pub fn cluster_object(centre: Point, d: &ObjectDraw, chance: u32) -> (o: SpawnedObject)
    ensures
        o == cluster_object_spec(centre, *d, chance),
{
    let kind = if d.roll > chance {
        SpawnedKind::Rock
    } else {
        SpawnedKind::Mineral { amount: CLUSTER_MINERAL_AMOUNT }
    };
    SpawnedObject {
        kind,
        position: centre.translated(d.offset),
        rotation: d.rotation,
        velocity: d.velocity,
        angvel: d.angvel,
        scale: 1000,
        cull: Some(Cull { max_distance: DEFAULT_CULL_DISTANCE }),
    }
}

fn random_angle_spin() -> (s: Spin)
    ensures
        is_angle_spin(s),
{
    Spin {
        x: random_range(-PI_MILLIRADIANS, PI_MILLIRADIANS),
        y: random_range(-PI_MILLIRADIANS, PI_MILLIRADIANS),
        z: random_range(-PI_MILLIRADIANS, PI_MILLIRADIANS),
    }
}

/// Draws the random values for one object of a cluster of this radius.
pub fn draw_object(radius: i64) -> (d: ObjectDraw)
    requires
        0 <= radius,
    ensures
        is_draw(d, radius as int),
{
    let offset = scatter_in_disk(radius);
    let rotation = random_angle_spin();
    let velocity = Point {
        x: random_range(-DRIFT_SPEED, DRIFT_SPEED),
        y: random_range(-DRIFT_SPEED, DRIFT_SPEED),
    };
    let angvel = random_angle_spin();
    let roll = random_range(0, 1000) as u32;
    ObjectDraw { offset, rotation, velocity, angvel, roll }
}

/// Whether `o` is an object that a cluster for `ev` can hold.
pub open spec fn is_cluster_member(o: SpawnedObject, ev: SpawnEvent) -> bool {
    exists|d: ObjectDraw, radius: int|
        is_isqrt(cluster_radius_sq(ev.number_of_rocks), radius) && is_draw(d, radius) && o
            == cluster_object_spec(ev.centre_of_region, d, ev.chance_of_mineral)
}

/// Spawns a requested cluster if the whole of it fits under the cap, and
/// nothing otherwise. Room for all of it is reserved before any object is
/// made.
pub fn spawn_cluster(limit: &mut RockLimit, ev: &SpawnEvent) -> (r: Vec<SpawnedObject>)
    requires
        old(limit).wf(),
    ensures
        final(limit).wf(),
        *final(limit) == old(limit).reserved(ev.number_of_rocks),
        !old(limit).accepts(ev.number_of_rocks) ==> r@.len() == 0,
        old(limit).accepts(ev.number_of_rocks) ==> r@.len() == ev.number_of_rocks,
        forall|i: int| 0 <= i < r@.len() ==> is_cluster_member(#[trigger] r@[i], *ev),
{
    let mut r: Vec<SpawnedObject> = Vec::new();
    if !limit.try_reserve(ev.number_of_rocks) {
        return r;
    }
    let radius = cluster_radius(ev.number_of_rocks);
    let mut k: u32 = 0;
    while k < ev.number_of_rocks
        invariant
            k <= ev.number_of_rocks,
            r@.len() == k,
            is_isqrt(cluster_radius_sq(ev.number_of_rocks), radius as int),
            forall|i: int| 0 <= i < r@.len() ==> is_cluster_member(#[trigger] r@[i], *ev),
        decreases ev.number_of_rocks - k,
    {
        let d = draw_object(radius);
        let o = cluster_object(ev.centre_of_region, &d, ev.chance_of_mineral);
        assert(is_isqrt(cluster_radius_sq(ev.number_of_rocks), radius as int) && is_draw(d, radius as int)
            && o == cluster_object_spec(ev.centre_of_region, d, ev.chance_of_mineral));
        assert(is_cluster_member(o, *ev));
        r.push(o);
        k = k + 1;
    }
    r
}

/// The fragment made at `position` with this velocity and spin.
pub open spec fn fragment_spec(position: Point, velocity: Point, angvel: Spin) -> SpawnedObject {
    SpawnedObject {
        kind: SpawnedKind::Mineral { amount: FRAGMENT_AMOUNT },
        position,
        rotation: Spin { x: 0, y: 0, z: 0 },
        velocity,
        angvel,
        scale: FRAGMENT_SCALE,
        cull: Some(Cull { max_distance: DEFAULT_CULL_DISTANCE }),
    }
}

/// Whether `v` is a fragment velocity: `DRIFT_SPEED` along a drawn direction.
pub open spec fn is_fragment_velocity(v: Point) -> bool {
    exists|d: Point, len: int|
        is_direction(d) && fine_len(d, len) && v == normalized_to(d, DRIFT_SPEED as int, len)
}

/// Whether `o` is a fragment that `fragments_of(position)` can make.
pub open spec fn is_fragment(o: SpawnedObject, position: Point) -> bool {
    exists|v: Point, s: Spin| is_fragment_velocity(v) && is_angle_spin(s) && o == fragment_spec(position, v, s)
}

/// A rock destroyed at `position` (by a projectile or the shield): it leaves
/// the count of live rocks, and `fragments_of(position)` takes its place.
pub fn destroy_rock(limit: &mut RockLimit, position: Point) -> (r: Vec<SpawnedObject>)
    requires
        old(limit).wf(),
    ensures
        final(limit).wf(),
        *final(limit) == old(limit).released(),
        r@.len() == FRAGMENTS_PER_ROCK,
        forall|i: int| 0 <= i < r@.len() ==> is_fragment(#[trigger] r@[i], position),
{
    limit.release();
    fragments_of(position)
}

/// The mineral fragments that replace a rock destroyed at `position`: three
/// half-size collectibles of one unit each, flying off in random directions.
/// They are not counted against the cap.
pub fn fragments_of(position: Point) -> (r: Vec<SpawnedObject>)
    ensures
        r@.len() == FRAGMENTS_PER_ROCK,
        forall|i: int| 0 <= i < r@.len() ==> is_fragment(#[trigger] r@[i], position),
{
    let mut r: Vec<SpawnedObject> = Vec::new();
    let mut k: usize = 0;
    while k < FRAGMENTS_PER_ROCK
        invariant
            k <= FRAGMENTS_PER_ROCK,
            r@.len() == k,
            forall|i: int| 0 <= i < r@.len() ==> is_fragment(#[trigger] r@[i], position),
        decreases FRAGMENTS_PER_ROCK - k,
    {
        let dir = random_direction();
        let velocity = scale_to_length(dir, DRIFT_SPEED);
        let angvel = random_angle_spin();
        let o = SpawnedObject {
            kind: SpawnedKind::Mineral { amount: FRAGMENT_AMOUNT },
            position,
            rotation: Spin { x: 0, y: 0, z: 0 },
            velocity,
            angvel,
            scale: FRAGMENT_SCALE,
            cull: Some(Cull { max_distance: DEFAULT_CULL_DISTANCE }),
        };
        proof {
            let len = choose|len: int| fine_len(dir, len) && velocity == normalized_to(dir, DRIFT_SPEED as int, len);
            assert(is_direction(dir) && fine_len(dir, len) && velocity == normalized_to(dir, DRIFT_SPEED as int, len));
            assert(is_fragment_velocity(velocity));
            assert(is_fragment_velocity(velocity) && is_angle_spin(angvel) && o == fragment_spec(position, velocity, angvel));
            assert(is_fragment(o, position));
        }
        r.push(o);
        k = k + 1;
    }
    r
}

} // verus!
