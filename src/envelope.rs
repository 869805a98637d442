use vstd::prelude::*;

verus! {

/// Full scale of an envelope level: levels are fixed-point fractions of this.
pub const LEVEL_ONE: u32 = 65536;

/// The stage an envelope is in.
#[derive(Clone, Copy, Debug, PartialEq, Eq, Structural)]
pub enum Stage {
    Idle,
    Attack,
    Decay,
    Sustain,
    Release,
}

/// The envelope's timing, in samples, and its sustain level, in fixed point.
#[derive(Clone, Copy, Debug, PartialEq, Eq, Structural)]
pub struct Shape {
    pub attack: u32,
    pub decay: u32,
    pub sustain: u32,
    pub release: u32,
}

impl Shape {
    pub open spec fn wf(self) -> bool {
        self.sustain <= LEVEL_ONE
    }
}

/// The per-voice envelope: its stage, the samples spent in that stage, and
/// the level it was at when the release began.
#[derive(Clone, Copy, Debug, PartialEq, Eq, Structural)]
pub struct Envelope {
    pub stage: Stage,
    pub elapsed: u32,
    pub release_from: u32,
}

/// The amplitude of an envelope in the given shape.
pub open spec fn level_of(e: Envelope, sh: Shape) -> int {
    match e.stage {
        Stage::Idle => 0,
        Stage::Attack => if e.elapsed >= sh.attack {
            LEVEL_ONE as int
        } else {
            (LEVEL_ONE * e.elapsed) as int / sh.attack as int
        },
        Stage::Decay => if e.elapsed >= sh.decay {
            sh.sustain as int
        } else {
            LEVEL_ONE - ((LEVEL_ONE - sh.sustain) * e.elapsed) as int / sh.decay as int
        },
        Stage::Sustain => sh.sustain as int,
        Stage::Release => if e.elapsed >= sh.release {
            0
        } else {
            e.release_from - (e.release_from * e.elapsed) as int / sh.release as int
        },
    }
}

/// A note-on restarts the attack from the beginning, whatever came before.
pub open spec fn triggered(e: Envelope) -> Envelope {
    Envelope { stage: Stage::Attack, elapsed: 0, release_from: 0 }
}

/// A note-off releases a sounding envelope from the level it has reached.
pub open spec fn released(e: Envelope, sh: Shape) -> Envelope {
    match e.stage {
        Stage::Attack | Stage::Decay | Stage::Sustain => Envelope {
            stage: Stage::Release,
            elapsed: 0,
            release_from: level_of(e, sh) as u32,
        },
        _ => e,
    }
}

/// One sample later: a timed stage moves on once its duration has elapsed.
pub open spec fn ticked(e: Envelope, sh: Shape) -> Envelope {
    let next = e.elapsed + 1;
    match e.stage {
        Stage::Attack => if next >= sh.attack {
            Envelope { stage: Stage::Decay, elapsed: 0, ..e }
        } else {
            Envelope { elapsed: next as u32, ..e }
        },
        Stage::Decay => if next >= sh.decay {
            Envelope { stage: Stage::Sustain, elapsed: 0, ..e }
        } else {
            Envelope { elapsed: next as u32, ..e }
        },
        Stage::Release => if next >= sh.release {
            Envelope { stage: Stage::Idle, elapsed: 0, release_from: 0 }
        } else {
            Envelope { elapsed: next as u32, ..e }
        },
        _ => e,
    }
}

/// The envelope after `k` samples in an unchanging shape.
pub open spec fn ticked_n(e: Envelope, sh: Shape, k: nat) -> Envelope
    decreases k,
{
    if k == 0 {
        e
    } else {
        ticked_n(ticked(e, sh), sh, (k - 1) as nat)
    }
}

proof fn lemma_scaled_below(x: int, e: int, d: int)
    requires
        0 <= x <= LEVEL_ONE,
        0 <= e < d <= 0xffff_ffff,
    ensures
        0 <= (x * e) / d <= x,
        x > 0 ==> (x * e) / d < x,
        x * e <= 0xffff_ffff * 0x10000,
{
    let q = (x * e) / d;
    assert(0 <= x * e <= x * d) by (nonlinear_arith)
        requires 0 <= x, 0 <= e < d;
    assert(x * e <= 0xffff_ffff * 0x10000) by (nonlinear_arith)
        requires 0 <= x <= 0x10000, 0 <= e < d, d <= 0xffff_ffff;
    vstd::arithmetic::div_mod::lemma_fundamental_div_mod(x * e, d);
    vstd::arithmetic::div_mod::lemma_mod_pos_bound(x * e, d);
    vstd::arithmetic::div_mod::lemma_div_pos_is_pos(x * e, d);
    assert(q * d <= x * e);
    if x > 0 {
        assert(x * e < x * d) by (nonlinear_arith)
            requires 0 < x, 0 <= e < d;
        assert(q < x) by (nonlinear_arith)
            requires q * d < x * d, 0 < d;
    } else {
        assert(q <= x) by (nonlinear_arith)
            requires q * d <= x * d, 0 < d;
    }
}

impl Envelope {
    pub open spec fn wf(self) -> bool {
        self.release_from <= LEVEL_ONE
    }

    /// A silent envelope.
    pub fn idle() -> (r: Envelope)
        ensures
            r.stage == Stage::Idle,
            r.elapsed == 0,
            r.release_from == 0,
            r.wf(),
    {
        Envelope { stage: Stage::Idle, elapsed: 0, release_from: 0 }
    }

    pub open spec fn is_active(self) -> bool {
        self.stage != Stage::Idle
    }

    /// The current amplitude, between silence and full scale.
    pub fn level(&self, sh: &Shape) -> (r: u32)
        requires
            self.wf(),
            sh.wf(),
        ensures
            r == level_of(*self, *sh),
            r <= LEVEL_ONE,
    {
        match self.stage {
            Stage::Idle => 0,
            Stage::Attack => if self.elapsed >= sh.attack {
                LEVEL_ONE
            } else {
                proof { lemma_scaled_below(LEVEL_ONE as int, self.elapsed as int, sh.attack as int); }
                ((LEVEL_ONE as u64 * self.elapsed as u64) / sh.attack as u64) as u32
            },
            Stage::Decay => if self.elapsed >= sh.decay {
                sh.sustain
            } else {
                let span = LEVEL_ONE - sh.sustain;
                proof { lemma_scaled_below(span as int, self.elapsed as int, sh.decay as int); }
                LEVEL_ONE - ((span as u64 * self.elapsed as u64) / sh.decay as u64) as u32
            },
            Stage::Sustain => sh.sustain,
            Stage::Release => if self.elapsed >= sh.release {
                0
            } else {
                proof {
                    lemma_scaled_below(self.release_from as int, self.elapsed as int, sh.release as int);
                }
                self.release_from - ((self.release_from as u64 * self.elapsed as u64)
                    / sh.release as u64) as u32
            },
        }
    }

    /// Starts (or restarts) the attack.
    pub fn note_on(&mut self)
        ensures
            *final(self) == triggered(*old(self)),
            final(self).wf(),
    {
        self.stage = Stage::Attack;
        self.elapsed = 0;
        self.release_from = 0;
    }

    /// Releases a sounding envelope; an idle or releasing one is left as it is.
    pub fn note_off(&mut self, sh: &Shape)
        requires
            old(self).wf(),
            sh.wf(),
        ensures
            *final(self) == released(*old(self), *sh),
            final(self).wf(),
    {
        match self.stage {
            Stage::Attack | Stage::Decay | Stage::Sustain => {
                let from = self.level(sh);
                self.stage = Stage::Release;
                self.elapsed = 0;
                self.release_from = from;
            },
            _ => {},
        }
    }

    /// Advances the envelope by one sample.
    pub fn tick(&mut self, sh: &Shape)
        requires
            old(self).wf(),
        ensures
            *final(self) == ticked(*old(self), *sh),
            final(self).wf(),
    {
        let next = self.elapsed as u64 + 1;
        match self.stage {
            Stage::Attack => if next >= sh.attack as u64 {
                self.stage = Stage::Decay;
                self.elapsed = 0;
            } else {
                self.elapsed = next as u32;
            },
            Stage::Decay => if next >= sh.decay as u64 {
                self.stage = Stage::Sustain;
                self.elapsed = 0;
            } else {
                self.elapsed = next as u32;
            },
            Stage::Release => if next >= sh.release as u64 {
                self.stage = Stage::Idle;
                self.elapsed = 0;
                self.release_from = 0;
            } else {
                self.elapsed = next as u32;
            },
            _ => {},
        }
    }
}

proof fn lemma_idle_stays(e: Envelope, sh: Shape, k: nat)
    requires
        e.stage == Stage::Idle,
    ensures
        ticked_n(e, sh, k) == e,
    decreases k,
{
    if k > 0 {
        lemma_idle_stays(ticked(e, sh), sh, (k - 1) as nat);
    }
}

proof fn lemma_release_progress(e: Envelope, sh: Shape, k: nat)
    requires
        e.stage == Stage::Release,
    ensures
        e.elapsed + k < sh.release ==> ticked_n(e, sh, k) == (Envelope {
            elapsed: (e.elapsed + k) as u32,
            ..e
        }),
        k >= 1 && e.elapsed + k >= sh.release ==> ticked_n(e, sh, k).stage == Stage::Idle,
    decreases k,
{
    if k > 0 {
        let t = ticked(e, sh);
        if e.elapsed + 1 >= sh.release {
            lemma_idle_stays(t, sh, (k - 1) as nat);
        } else {
            lemma_release_progress(t, sh, (k - 1) as nat);
        }
    }
}

/// With an attack of zero samples, a triggered envelope is at full scale from
/// its very first sample.
pub proof fn lemma_instant_attack(e: Envelope, sh: Shape)
    requires
        sh.attack == 0,
    ensures
        triggered(e).stage == Stage::Attack,
        level_of(triggered(e), sh) == LEVEL_ONE,
{
}

/// A note-on followed at once by a note-off leaves the envelope releasing; it
/// keeps releasing while fewer samples than the release duration have passed,
/// and is idle once that duration (at least one sample) has passed.
pub proof fn lemma_note_on_off_releases(e: Envelope, sh: Shape)
    ensures
        released(triggered(e), sh).stage == Stage::Release,
        forall|k: nat|
            k < sh.release ==> (#[trigger] ticked_n(released(triggered(e), sh), sh, k)).stage
                == Stage::Release,
        forall|k: nat|
            k >= 1 && k >= sh.release ==> (#[trigger] ticked_n(released(triggered(e), sh), sh, k)).stage
                == Stage::Idle,
{
    let r = released(triggered(e), sh);
    assert forall|k: nat| k < sh.release implies (#[trigger] ticked_n(r, sh, k)).stage
        == Stage::Release by {
        lemma_release_progress(r, sh, k);
    }
    assert forall|k: nat| k >= 1 && k >= sh.release implies (#[trigger] ticked_n(r, sh, k)).stage
        == Stage::Idle by {
        lemma_release_progress(r, sh, k);
    }
}

} // verus!
