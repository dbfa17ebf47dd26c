//! Gesture recognition: turns a stream of low-level touch events into
//! tap, double-tap and pan gestures.
//!
//! Touch coordinates are fixed-point fractions of the viewport:
//! `COORD_SCALE` units span one viewport dimension.  Distance thresholds
//! are compared on squared Euclidean distance, which is exact in integer
//! arithmetic.  Each sub-detector is a pure state machine: feeding an event
//! yields the next state and at most one emitted gesture.

use vstd::prelude::*;

verus! {

/// Fixed-point scale: this many coordinate units span one viewport
/// dimension (so `1` unit is `0.0001` of the normalized space).
pub const COORD_SCALE: i32 = 10000;

/// A finger must rise within this many milliseconds of its touch-down to
/// count as a tap.
pub const TAP_DURATION_MS: u64 = 150;

/// Two taps within this many milliseconds of one another form a double
/// tap.
pub const DOUBLETAP_DURATION_MS: u64 = 300;

/// A tap's touch-up must land strictly within this squared distance of its
/// touch-down (400 units, 0.04 of normalized space), and a double tap's
/// second tap within the same squared distance of the first.
pub const TAP_DIST_SQ: i128 = 160000;

/// A finger travelling at least this far while down (squared distance of
/// 200 units, 0.02 of normalized space) stops being a tap candidate.
pub const TAP_CANCEL_SQ: i128 = 40000;

/// One touch sample: which finger, where, how far it moved, when, and how
/// hard.
#[derive(Clone, Copy, Debug, PartialEq, Eq, Structural)]
pub struct TouchData {
    pub touch_id: i64,
    pub finger_id: i64,
    pub x: i32,
    pub y: i32,
    pub dx: i32,
    pub dy: i32,
    pub timestamp: u64,
    pub pressure: i32,
}

/// A low-level input event as delivered by the host windowing layer.
#[derive(Clone, Copy, Debug, PartialEq, Eq, Structural)]
pub enum InputEvent {
    FingerDown(TouchData),
    FingerMotion(TouchData),
    FingerUp(TouchData),
    /// A two-finger gesture sample: centroid and the change in finger
    /// separation, in coordinate units.
    MultiGesture { x: i32, y: i32, d_dist: i32, timestamp: u64 },
}

/// A recognized gesture.
#[derive(Clone, Copy, Debug, PartialEq, Eq, Structural)]
pub enum GestureEvent {
    Tap(i32, i32),
    DoubleTap(i32, i32),
    PanStart { timestamp: u64, x: i32, y: i32, dx: i32, dy: i32, pressure: i32 },
    Pan { timestamp: u64, x: i32, y: i32, dx: i32, dy: i32, pressure: i32 },
    PanEnd { timestamp: u64, x: i32, y: i32, dx: i32, dy: i32, pressure: i32 },
}

/// The gesture categories a detector can be configured with.
#[derive(Clone, Copy, Debug, PartialEq, Eq, Structural)]
pub enum GestureDetectorTypes {
    Tap,
    Pan,
}

/// Squared Euclidean distance between two points.
pub open spec fn dist_sq(x: int, y: int, x0: int, y0: int) -> int {
    (x - x0) * (x - x0) + (y - y0) * (y - y0)
}

/// Whether two points are strictly within the tap distance of each other.
pub open spec fn within_tap_dist(x: int, y: int, x0: int, y0: int) -> bool {
    dist_sq(x, y, x0, y0) < TAP_DIST_SQ
}

/// Squared distance, computed exactly.
fn dist_sq_exec(x: i32, y: i32, x0: i32, y0: i32) -> (r: i128)
    ensures
        r as int == dist_sq(x as int, y as int, x0 as int, y0 as int),
{
    let ddx: i128 = x as i128 - x0 as i128;
    let ddy: i128 = y as i128 - y0 as i128;
    proof {
        assert(ddx * ddx <= 0x1_0000_0000_0000_0000 && ddx * ddx >= 0) by (nonlinear_arith)
            requires
                -0x1_0000_0000 <= (ddx as int) && (ddx as int) <= 0x1_0000_0000,
        ;
        assert(ddy * ddy <= 0x1_0000_0000_0000_0000 && ddy * ddy >= 0) by (nonlinear_arith)
            requires
                -0x1_0000_0000 <= (ddy as int) && (ddy as int) <= 0x1_0000_0000,
        ;
    }
    ddx * ddx + ddy * ddy
}

/// Detects taps and double taps.
///
/// `prev_finger_down` is the candidate touch-down still eligible to become
/// a tap; `prev_tap` remembers the last confirmed tap (position and time)
/// for the double-tap comparison.
#[derive(Clone, Copy, Debug, PartialEq, Eq, Structural)]
pub struct TapDetector {
    pub prev_finger_down: Option<TouchData>,
    pub prev_tap: Option<PrevTap>,
}

/// The last confirmed tap: where and when it happened.
#[derive(Clone, Copy, Debug, PartialEq, Eq, Structural)]
pub struct PrevTap {
    pub x: i32,
    pub y: i32,
    pub timestamp: u64,
}

/// A motion sample this far from the candidate touch-down (or farther), by
/// the same finger, cancels the candidate.
pub open spec fn cancels_tap(s: TapDetector, m: TouchData) -> bool {
    match s.prev_finger_down {
        Some(d) => d.finger_id == m.finger_id && dist_sq(m.x as int, m.y as int, d.x as int, d.y as int)
            >= TAP_CANCEL_SQ,
        None => false,
    }
}

/// A touch-up completes a tap when it stays within the tap distance and
/// the tap duration of its touch-down.
pub open spec fn tap_conditions(d: TouchData, u: TouchData) -> bool {
    &&& within_tap_dist(u.x as int, u.y as int, d.x as int, d.y as int)
    &&& u.timestamp >= d.timestamp
    &&& u.timestamp - d.timestamp < TAP_DURATION_MS
}

/// A new tap this close (in space and time) to the previous confirmed tap
/// upgrades to a double tap.
pub open spec fn is_double_of(prev: PrevTap, u: TouchData) -> bool {
    &&& within_tap_dist(u.x as int, u.y as int, prev.x as int, prev.y as int)
    &&& u.timestamp >= prev.timestamp
    &&& u.timestamp - prev.timestamp < DOUBLETAP_DURATION_MS
}

/// The tap detector state after one event.
pub open spec fn tap_step(s: TapDetector, e: InputEvent) -> TapDetector {
    match e {
        InputEvent::FingerDown(d) => TapDetector { prev_finger_down: Some(d), ..s },
        InputEvent::FingerMotion(m) => if cancels_tap(s, m) {
            TapDetector { prev_finger_down: None, ..s }
        } else {
            s
        },
        InputEvent::FingerUp(u) => match s.prev_finger_down {
            Some(d) => if d.finger_id == u.finger_id {
                if tap_conditions(d, u) {
                    match s.prev_tap {
                        Some(p) => if is_double_of(p, u) {
                            TapDetector { prev_finger_down: None, prev_tap: None }
                        } else {
                            TapDetector {
                                prev_finger_down: None,
                                prev_tap: Some(PrevTap { x: u.x, y: u.y, timestamp: u.timestamp }),
                            }
                        },
                        None => TapDetector {
                            prev_finger_down: None,
                            prev_tap: Some(PrevTap { x: u.x, y: u.y, timestamp: u.timestamp }),
                        },
                    }
                } else {
                    TapDetector { prev_finger_down: None, ..s }
                }
            } else {
                s
            },
            None => s,
        },
        InputEvent::MultiGesture { .. } => s,
    }
}

/// The gesture the tap detector emits for one event, if any.
pub open spec fn tap_emit(s: TapDetector, e: InputEvent) -> Option<GestureEvent> {
    match e {
        InputEvent::FingerUp(u) => match s.prev_finger_down {
            Some(d) => if d.finger_id == u.finger_id && tap_conditions(d, u) {
                match s.prev_tap {
                    Some(p) => if is_double_of(p, u) {
                        Some(GestureEvent::DoubleTap(u.x, u.y))
                    } else {
                        Some(GestureEvent::Tap(u.x, u.y))
                    },
                    None => Some(GestureEvent::Tap(u.x, u.y)),
                }
            } else {
                None
            },
            None => None,
        },
        _ => None,
    }
}

impl TapDetector {
    pub fn new() -> (r: TapDetector)
        ensures
            r == (TapDetector { prev_finger_down: None, prev_tap: None }),
    {
        TapDetector { prev_finger_down: None, prev_tap: None }
    }

    /// Run one event through the tap state machine.
    pub fn feed(&mut self, evt: &InputEvent) -> (r: Option<GestureEvent>)
        ensures
            *final(self) == tap_step(*old(self), *evt),
            r == tap_emit(*old(self), *evt),
    {
        match *evt {
            InputEvent::FingerDown(d) => {
                self.prev_finger_down = Some(d);
                None
            },
            InputEvent::FingerMotion(m) => {
                let mut cancel = false;
                if let Some(d) = self.prev_finger_down {
                    if d.finger_id == m.finger_id {
                        let dsq = dist_sq_exec(m.x, m.y, d.x, d.y);
                        if dsq >= TAP_CANCEL_SQ {
                            cancel = true;
                        }
                    }
                }
                if cancel {
                    self.prev_finger_down = None;
                }
                None
            },
            InputEvent::FingerUp(u) => {
                if let Some(d) = self.prev_finger_down {
                    if d.finger_id == u.finger_id {
                        self.prev_finger_down = None;
                        let dsq = dist_sq_exec(u.x, u.y, d.x, d.y);
                        if dsq < TAP_DIST_SQ && u.timestamp
                            >= d.timestamp && u.timestamp - d.timestamp < TAP_DURATION_MS {
                            let mut single = true;
                            if let Some(p) = self.prev_tap {
                                let psq = dist_sq_exec(u.x, u.y, p.x, p.y);
                                if psq < TAP_DIST_SQ
                                    && u.timestamp >= p.timestamp && u.timestamp - p.timestamp
                                    < DOUBLETAP_DURATION_MS {
                                    single = false;
                                }
                            }
                            if single {
                                self.prev_tap = Some(PrevTap { x: u.x, y: u.y, timestamp: u.timestamp });
                                return Some(GestureEvent::Tap(u.x, u.y));
                            }
                            self.prev_tap = None;
                            return Some(GestureEvent::DoubleTap(u.x, u.y));
                        }
                    }
                }
                None
            },
            InputEvent::MultiGesture { .. } => None,
        }
    }
}

/// Detects pans: tracks one (touch id, finger id) pair and how many
/// fingers are currently on the surface.
#[derive(Clone, Copy, Debug, PartialEq, Eq, Structural)]
pub struct PanDetector {
    pub curr_touch_id: i64,
    pub curr_finger_id: i64,
    pub fingers: u32,
}

/// The pan detector state after one event: a touch-down adopts the new
/// finger as the tracked pointer; the finger count follows downs and ups.
pub open spec fn pan_step(s: PanDetector, e: InputEvent) -> PanDetector {
    match e {
        InputEvent::FingerDown(d) => PanDetector {
            curr_touch_id: d.touch_id,
            curr_finger_id: d.finger_id,
            fingers: if s.fingers < 0xffff_ffff {
                (s.fingers + 1) as u32
            } else {
                s.fingers
            },
        },
        InputEvent::FingerUp(u) => PanDetector {
            fingers: if s.fingers > 0 {
                (s.fingers - 1) as u32
            } else {
                0
            },
            ..s
        },
        _ => s,
    }
}

/// Whether an event matches the tracked pointer.
pub open spec fn pan_tracks(s: PanDetector, t: TouchData) -> bool {
    s.curr_touch_id == t.touch_id && s.curr_finger_id == t.finger_id
}

/// The gesture the pan detector emits for one event: every touch-down
/// starts a pan; motion pans only while exactly one finger is down and it
/// is the tracked one; a matching touch-up ends the pan.
pub open spec fn pan_emit(s: PanDetector, e: InputEvent) -> Option<GestureEvent> {
    match e {
        InputEvent::FingerDown(d) => Some(
            GestureEvent::PanStart {
                timestamp: d.timestamp,
                x: d.x,
                y: d.y,
                dx: d.dx,
                dy: d.dy,
                pressure: d.pressure,
            },
        ),
        InputEvent::FingerMotion(m) => if s.fingers == 1 && pan_tracks(s, m) {
            Some(
                GestureEvent::Pan {
                    timestamp: m.timestamp,
                    x: m.x,
                    y: m.y,
                    dx: m.dx,
                    dy: m.dy,
                    pressure: m.pressure,
                },
            )
        } else {
            None
        },
        InputEvent::FingerUp(u) => if pan_tracks(s, u) {
            Some(
                GestureEvent::PanEnd {
                    timestamp: u.timestamp,
                    x: u.x,
                    y: u.y,
                    dx: u.dx,
                    dy: u.dy,
                    pressure: u.pressure,
                },
            )
        } else {
            None
        },
        InputEvent::MultiGesture { .. } => None,
    }
}

impl PanDetector {
    pub fn new() -> (r: PanDetector)
        ensures
            r == (PanDetector { curr_touch_id: -1i64, curr_finger_id: -1i64, fingers: 0u32 }),
    {
        PanDetector { curr_touch_id: -1, curr_finger_id: -1, fingers: 0 }
    }

    /// Run one event through the pan state machine.
    pub fn feed(&mut self, evt: &InputEvent) -> (r: Option<GestureEvent>)
        ensures
            *final(self) == pan_step(*old(self), *evt),
            r == pan_emit(*old(self), *evt),
    {
        match *evt {
            InputEvent::FingerDown(d) => {
                self.curr_touch_id = d.touch_id;
                self.curr_finger_id = d.finger_id;
                if self.fingers < u32::MAX {
                    self.fingers = self.fingers + 1;
                }
                Some(
                    GestureEvent::PanStart {
                        timestamp: d.timestamp,
                        x: d.x,
                        y: d.y,
                        dx: d.dx,
                        dy: d.dy,
                        pressure: d.pressure,
                    },
                )
            },
            InputEvent::FingerMotion(m) => {
                if self.fingers == 1 && self.curr_touch_id == m.touch_id && self.curr_finger_id
                    == m.finger_id {
                    Some(
                        GestureEvent::Pan {
                            timestamp: m.timestamp,
                            x: m.x,
                            y: m.y,
                            dx: m.dx,
                            dy: m.dy,
                            pressure: m.pressure,
                        },
                    )
                } else {
                    None
                }
            },
            InputEvent::FingerUp(u) => {
                let matched = self.curr_touch_id == u.touch_id && self.curr_finger_id
                    == u.finger_id;
                if self.fingers > 0 {
                    self.fingers = self.fingers - 1;
                }
                if matched {
                    Some(
                        GestureEvent::PanEnd {
                            timestamp: u.timestamp,
                            x: u.x,
                            y: u.y,
                            dx: u.dx,
                            dy: u.dy,
                            pressure: u.pressure,
                        },
                    )
                } else {
                    None
                }
            },
            InputEvent::MultiGesture { .. } => None,
        }
    }
}

/// One configured sub-detector.
#[derive(Clone, Copy, Debug, PartialEq, Eq, Structural)]
pub enum SubDetector {
    Tap(TapDetector),
    Pan(PanDetector),
}

/// The fresh sub-detector for a requested gesture category.
pub open spec fn init_sub(t: GestureDetectorTypes) -> SubDetector {
    match t {
        GestureDetectorTypes::Tap => SubDetector::Tap(
            TapDetector { prev_finger_down: None, prev_tap: None },
        ),
        GestureDetectorTypes::Pan => SubDetector::Pan(
            PanDetector { curr_touch_id: -1i64, curr_finger_id: -1i64, fingers: 0u32 },
        ),
    }
}

/// One sub-detector stepped by one event.
pub open spec fn sub_step(d: SubDetector, e: InputEvent) -> SubDetector {
    match d {
        SubDetector::Tap(t) => SubDetector::Tap(tap_step(t, e)),
        SubDetector::Pan(p) => SubDetector::Pan(pan_step(p, e)),
    }
}

/// What one sub-detector emits for one event.
pub open spec fn sub_emit(d: SubDetector, e: InputEvent) -> Option<GestureEvent> {
    match d {
        SubDetector::Tap(t) => tap_emit(t, e),
        SubDetector::Pan(p) => pan_emit(p, e),
    }
}

/// An optional gesture as a sequence of zero or one elements.
pub open spec fn opt_seq(o: Option<GestureEvent>) -> Seq<GestureEvent> {
    match o {
        Some(g) => seq![g],
        None => Seq::empty(),
    }
}

/// The gestures emitted by a row of sub-detectors for one event, in
/// detector order.
pub open spec fn emitted_from(ds: Seq<SubDetector>, e: InputEvent) -> Seq<GestureEvent>
    decreases ds.len(),
{
    if ds.len() == 0 {
        Seq::empty()
    } else {
        opt_seq(sub_emit(ds[0], e)) + emitted_from(ds.drop_first(), e)
    }
}

proof fn lemma_emitted_take_snoc(ds: Seq<SubDetector>, e: InputEvent, i: int)
    requires
        0 <= i < ds.len(),
    ensures
        emitted_from(ds.take(i + 1), e) == emitted_from(ds.take(i), e) + opt_seq(
            sub_emit(ds[i], e),
        ),
    decreases i,
{
    if i == 0 {
        assert(ds.take(1).drop_first() =~= Seq::<SubDetector>::empty());
        assert(ds.take(0) =~= Seq::<SubDetector>::empty());
        assert(ds.take(1)[0] == ds[0]);
        assert(emitted_from(Seq::<SubDetector>::empty(), e) =~= Seq::<GestureEvent>::empty());
        assert(emitted_from(ds.take(1), e) =~= opt_seq(sub_emit(ds[0], e)));
        assert(emitted_from(ds.take(0), e) + opt_seq(sub_emit(ds[0], e)) =~= opt_seq(
            sub_emit(ds[0], e),
        ));
    } else {
        lemma_emitted_take_snoc(ds.drop_first(), e, i - 1);
        assert(ds.take(i + 1).drop_first() =~= ds.drop_first().take(i));
        assert(ds.take(i).drop_first() =~= ds.drop_first().take(i - 1));
        assert(ds.take(i + 1)[0] == ds[0]);
        assert(ds.take(i)[0] == ds[0]);
        assert(ds.drop_first()[i - 1] == ds[i]);
        assert(emitted_from(ds.take(i + 1), e) == opt_seq(sub_emit(ds[0], e)) + emitted_from(
            ds.drop_first().take(i),
            e,
        ));
        assert(emitted_from(ds.take(i), e) == opt_seq(sub_emit(ds[0], e)) + emitted_from(
            ds.drop_first().take(i - 1),
            e,
        ));
        assert((opt_seq(sub_emit(ds[0], e)) + (emitted_from(ds.drop_first().take(i - 1), e)
            + opt_seq(sub_emit(ds[i], e)))) =~= (opt_seq(sub_emit(ds[0], e)) + emitted_from(
            ds.drop_first().take(i - 1),
            e,
        )) + opt_seq(sub_emit(ds[i], e)));
    }
}

/// A set of sub-detectors sharing an output pool: every event is fed to
/// every detector, the emitted gestures collect in the pool, and `poll`
/// drains the pool once per frame.
pub struct GestureDetector {
    pub pool: Vec<GestureEvent>,
    pub detectors: Vec<SubDetector>,
}

impl GestureDetector {
    /// Build a detector with one sub-detector per requested category, in
    /// the given order.
    pub fn new(types: Vec<GestureDetectorTypes>) -> (r: GestureDetector)
        ensures
            r.pool@ == Seq::<GestureEvent>::empty(),
            r.detectors@.len() == types@.len(),
            forall|i: int|
                0 <= i < types@.len() ==> r.detectors@[i] == init_sub(types@[i]),
    {
        let mut detectors: Vec<SubDetector> = Vec::new();
        let mut i: usize = 0;
        while i < types.len()
            invariant
                i <= types@.len(),
                detectors@.len() == i,
                forall|j: int| 0 <= j < i ==> detectors@[j] == init_sub(types@[j]),
            decreases types@.len() - i,
        {
            match types[i] {
                GestureDetectorTypes::Tap => detectors.push(SubDetector::Tap(TapDetector::new())),
                GestureDetectorTypes::Pan => detectors.push(SubDetector::Pan(PanDetector::new())),
            }
            i = i + 1;
        }
        GestureDetector { pool: Vec::new(), detectors }
    }

    /// Feed one event to every sub-detector, collecting the emitted
    /// gestures into the pool in detector order.
    pub fn feed(&mut self, evt: &InputEvent)
        ensures
            final(self).detectors@.len() == old(self).detectors@.len(),
            forall|i: int|
                0 <= i < old(self).detectors@.len() ==> final(self).detectors@[i] == sub_step(
                    old(self).detectors@[i],
                    *evt,
                ),
            final(self).pool@ == old(self).pool@ + emitted_from(old(self).detectors@, *evt),
    {
        let n = self.detectors.len();
        let mut i: usize = 0;
        while i < n
            invariant
                i <= n,
                n == old(self).detectors@.len(),
                self.detectors@.len() == n,
                forall|j: int|
                    0 <= j < i ==> self.detectors@[j] == sub_step(old(self).detectors@[j], *evt),
                forall|j: int| i <= j < n ==> self.detectors@[j] == old(self).detectors@[j],
                self.pool@ == old(self).pool@ + emitted_from(old(self).detectors@.take(i as int), *evt),
            decreases n - i,
        {
            let g: Option<GestureEvent> = match self.detectors[i] {
                SubDetector::Tap(t) => {
                    let mut t2 = t;
                    let g = t2.feed(evt);
                    self.detectors.set(i, SubDetector::Tap(t2));
                    g
                },
                SubDetector::Pan(p) => {
                    let mut p2 = p;
                    let g = p2.feed(evt);
                    self.detectors.set(i, SubDetector::Pan(p2));
                    g
                },
            };
            proof {
                lemma_emitted_take_snoc(old(self).detectors@, *evt, i as int);
            }
            if let Some(ge) = g {
                self.pool.push(ge);
            }
            i = i + 1;
        }
        proof {
            assert(old(self).detectors@.take(n as int) =~= old(self).detectors@);
        }
    }

    /// Drain and return every gesture collected since the last poll.
    pub fn poll(&mut self) -> (r: Vec<GestureEvent>)
        ensures
            r@ == old(self).pool@,
            final(self).pool@ == Seq::<GestureEvent>::empty(),
            final(self).detectors@ == old(self).detectors@,
    {
        let mut r: Vec<GestureEvent> = Vec::new();
        core::mem::swap(&mut r, &mut self.pool);
        r
    }

    /// How many fingers the pan sub-detector currently counts on the
    /// surface; zero when no pan detector is configured.
    pub open spec fn spec_fingers(ds: Seq<SubDetector>) -> u32
        decreases ds.len(),
    {
        if ds.len() == 0 {
            0
        } else {
            match ds[0] {
                SubDetector::Pan(p) => p.fingers,
                _ => GestureDetector::spec_fingers(ds.drop_first()),
            }
        }
    }

    /// The finger count seen by the first pan sub-detector.
    pub fn fingers(&self) -> (r: u32)
        ensures
            r == GestureDetector::spec_fingers(self.detectors@),
    {
        let n = self.detectors.len();
        let mut i: usize = 0;
        proof {
            assert(self.detectors@.skip(0) =~= self.detectors@);
        }
        while i < n
            invariant
                i <= n,
                n == self.detectors@.len(),
                GestureDetector::spec_fingers(self.detectors@) == GestureDetector::spec_fingers(
                    self.detectors@.skip(i as int),
                ),
                forall|j: int| 0 <= j < i ==> !(self.detectors@[j] is Pan),
            decreases n - i,
        {
            proof {
                assert(self.detectors@.skip(i as int)[0] == self.detectors@[i as int]);
            }
            match self.detectors[i] {
                SubDetector::Pan(p) => {
                    return p.fingers;
                },
                _ => {},
            }
            proof {
                assert(self.detectors@.skip(i as int).drop_first() =~= self.detectors@.skip(
                    i as int + 1,
                ));
            }
            i = i + 1;
        }
        0
    }
}

/// A touch-down followed by a touch-up within the tap distance and
/// duration emits exactly one `Tap` (the down itself emits nothing), and a
/// second such pair within the double-tap window and distance of the first
/// emits `DoubleTap` instead of a second `Tap` and clears the remembered
/// tap, so a third pair would start over as a plain `Tap`.
pub proof fn lemma_tap_then_double_tap(
    s0: TapDetector,
    d1: TouchData,
    u1: TouchData,
    d2: TouchData,
    u2: TouchData,
)
    requires
        s0.prev_tap is None,
        d1.finger_id == u1.finger_id,
        tap_conditions(d1, u1),
        d2.finger_id == u2.finger_id,
        tap_conditions(d2, u2),
        is_double_of(PrevTap { x: u1.x, y: u1.y, timestamp: u1.timestamp }, u2),
    ensures
        ({
            let s1 = tap_step(s0, InputEvent::FingerDown(d1));
            let s2 = tap_step(s1, InputEvent::FingerUp(u1));
            let s3 = tap_step(s2, InputEvent::FingerDown(d2));
            let s4 = tap_step(s3, InputEvent::FingerUp(u2));
            &&& tap_emit(s0, InputEvent::FingerDown(d1)) is None
            &&& tap_emit(s1, InputEvent::FingerUp(u1)) == Some(GestureEvent::Tap(u1.x, u1.y))
            &&& s2.prev_finger_down is None
            &&& s2.prev_tap == Some(PrevTap { x: u1.x, y: u1.y, timestamp: u1.timestamp })
            &&& tap_emit(s2, InputEvent::FingerDown(d2)) is None
            &&& tap_emit(s3, InputEvent::FingerUp(u2)) == Some(
                GestureEvent::DoubleTap(u2.x, u2.y),
            )
            &&& s4.prev_tap is None
            &&& s4.prev_finger_down is None
        }),
{
}

/// A motion sample that travels at least the cancel distance between a
/// touch-down and its touch-up cancels tap detection: neither a `Tap` nor
/// a `DoubleTap` is emitted for that touch-up.
pub proof fn lemma_motion_cancels_tap(s0: TapDetector, d: TouchData, m: TouchData, u: TouchData)
    requires
        m.finger_id == d.finger_id,
        dist_sq(m.x as int, m.y as int, d.x as int, d.y as int) >= TAP_CANCEL_SQ,
    ensures
        ({
            let s1 = tap_step(s0, InputEvent::FingerDown(d));
            let s2 = tap_step(s1, InputEvent::FingerMotion(m));
            &&& tap_emit(s1, InputEvent::FingerMotion(m)) is None
            &&& s2.prev_finger_down is None
            &&& tap_emit(s2, InputEvent::FingerUp(u)) is None
        }),
{
}

/// A `Pan` is emitted for a motion sample exactly when one finger is on
/// the surface and the sample comes from the tracked pointer.
pub proof fn lemma_pan_single_touch_only(s: PanDetector, m: TouchData)
    ensures
        pan_emit(s, InputEvent::FingerMotion(m)) is Some <==> (s.fingers == 1 && pan_tracks(s, m)),
{
}

/// Putting a second finger down while panning suppresses every further
/// `Pan` until the finger count is back to one: the new touch re-anchors
/// the tracked pointer and raises the finger count to two, under which no
/// motion sample pans.
pub proof fn lemma_second_touch_suppresses_pan(s: PanDetector, d2: TouchData, m: TouchData)
    requires
        s.fingers == 1,
    ensures
        ({
            let s2 = pan_step(s, InputEvent::FingerDown(d2));
            &&& s2.fingers == 2
            &&& pan_emit(s2, InputEvent::FingerMotion(m)) is None
        }),
{
}

} // verus!
