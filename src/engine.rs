//! The animation engine: phase transitions, the celebration burst and its
//! particle physics, and the twinkling starfield.
//!
//! Particle positions and velocities are fixed-point numbers counted in
//! thousandths of a terminal cell, so the whole simulation is integer
//! arithmetic that saturates instead of overflowing.

use crate::draw::random_in;
use vstd::arithmetic::div_mod::{lemma_hoist_over_denominator, lemma_mod_multiples_vanish};
use vstd::prelude::*;

verus! {

/// Thousandths of a cell in one cell.
pub const SCALE: i32 = 1000;

/// Added to a particle's vertical velocity every frame (0.15 cell per frame).
pub const GRAVITY: i32 = 150;

/// A particle whose `y` reaches this line (50 cells below the origin) is gone.
pub const EXIT_Y: i32 = 50000;

/// Particles in one celebration burst.
pub const BURST_SIZE: usize = 100;

/// Frames a freshly launched particle lives.
pub const PARTICLE_LIFETIME: u32 = 100;

/// Stars in an initialised starfield.
pub const STAR_COUNT: usize = 100;

/// Distinct brightness levels of a star.
pub const BRIGHTNESS_LEVELS: u64 = 10;

/// Twinkle speeds are drawn from `1..MAX_TWINKLE_SPEED`.
pub const MAX_TWINKLE_SPEED: u8 = 5;

/// The top-level mode of the screen.
#[derive(Clone, Copy, Debug, PartialEq, Eq, Structural)]
pub enum AppState {
    Question,
    AcceptedYes,
    AcceptedMaybe,
    TryingNo,
}

/// What the user asked for; quitting is handled by the driving loop.
#[derive(Clone, Copy, Debug, PartialEq, Eq, Structural)]
pub enum Command {
    AcceptYes,
    AcceptMaybe,
    AttemptDecline,
}

/// The eight colours a celebration particle can take.
#[derive(Clone, Copy, Debug, PartialEq, Eq, Structural)]
pub enum Hue {
    Red,
    LightRed,
    Magenta,
    LightMagenta,
    Yellow,
    LightYellow,
    Cyan,
    LightCyan,
}

/// One decorative point of the celebration burst.
#[derive(Clone, Copy, Debug, PartialEq, Eq, Structural)]
pub struct Particle {
    pub x: i32,
    pub y: i32,
    pub vx: i32,
    pub vy: i32,
    pub glyph: char,
    pub hue: Hue,
    pub lifetime: u32,
}

/// One background star: a fixed cell and a stepped brightness.
#[derive(Clone, Copy, Debug, PartialEq, Eq, Structural)]
pub struct Star {
    pub x: u16,
    pub y: u16,
    pub brightness: u8,
    pub twinkle_speed: u8,
}

/// The launch velocity of one particle, in thousandths of a cell per frame.
#[derive(Clone, Copy, Debug, PartialEq, Eq, Structural)]
pub struct Launch {
    pub vx: i32,
    pub vy: i32,
}

/// The whole simulation state.
pub struct App {
    pub state: AppState,
    pub no_button_offset: (i16, i16),
    pub attempt_count: u32,
    pub frame_count: u64,
    pub particles: Vec<Particle>,
    pub stars: Vec<Star>,
    pub stars_initialized: bool,
}

// ---------------------------------------------------------------- phases

/// The phase that a command leads to, from any phase.
pub open spec fn phase_after(c: Command) -> AppState {
    match c {
        Command::AcceptYes => AppState::AcceptedYes,
        Command::AcceptMaybe => AppState::AcceptedMaybe,
        Command::AttemptDecline => AppState::TryingNo,
    }
}

/// Where the "no" button is pushed after `n` declines.
pub open spec fn decline_offset(n: int) -> (i16, i16) {
    (((7 * n) % 30 - 15) as i16, ((11 * n) % 20 - 10) as i16)
}

/// The decline counter and offset after one command.
pub open spec fn control_after(attempts: u32, offset: (i16, i16), c: Command) -> (u32, (i16, i16)) {
    if c == Command::AttemptDecline {
        let n: u32 = if attempts < u32::MAX { (attempts + 1) as u32 } else { attempts };
        (n, decline_offset(n as int))
    } else {
        (attempts, offset)
    }
}

/// The decline counter and offset after a run of commands from a fresh start.
pub open spec fn replay(cmds: Seq<Command>) -> (u32, (i16, i16))
    decreases cmds.len(),
{
    if cmds.len() == 0 {
        (0u32, (0i16, 0i16))
    } else {
        let prev = replay(cmds.drop_last());
        control_after(prev.0, prev.1, cmds.last())
    }
}

/// How many declines a run of commands holds.
pub open spec fn declines(cmds: Seq<Command>) -> nat
    decreases cmds.len(),
{
    if cmds.len() == 0 {
        0
    } else {
        declines(cmds.drop_last()) + if cmds.last() == Command::AttemptDecline { 1nat } else { 0nat }
    }
}

/// Every command is accepted from every phase and leads to the phase of the
/// transition table, whatever the phase before.
pub proof fn lemma_transition_table(from: AppState, c: Command)
    ensures
        c == Command::AcceptYes ==> phase_after(c) == AppState::AcceptedYes,
        c == Command::AcceptMaybe ==> phase_after(c) == AppState::AcceptedMaybe,
        c == Command::AttemptDecline ==> phase_after(c) == AppState::TryingNo,
        phase_after(c) != AppState::Question,
{
}

/// After any run of commands holding `n > 0` declines, the button offset is
/// `((7n mod 30) - 15, (11n mod 20) - 10)`, whatever else was interleaved.
pub proof fn lemma_offset_follows_declines(cmds: Seq<Command>)
    requires
        declines(cmds) <= u32::MAX,
    ensures
        replay(cmds).0 == declines(cmds),
        declines(cmds) > 0 ==> replay(cmds).1 == decline_offset(declines(cmds) as int),
        declines(cmds) == 0 ==> replay(cmds).1 == (0i16, 0i16),
    decreases cmds.len(),
{
    if cmds.len() > 0 {
        lemma_offset_follows_declines(cmds.drop_last());
    }
}

// ----------------------------------------------------------------- frames

/// The calls an engine answers, as far as its frame counter is concerned.
#[derive(Clone, Copy, Debug, PartialEq, Eq, Structural)]
pub enum EngineCall {
    Update,
    InitStars,
    AcceptYes,
    AcceptMaybe,
    AttemptDecline,
}

/// The frame counter after one call: only a frame update moves it, by one.
pub open spec fn frame_after(frame: int, c: EngineCall) -> int {
    if c == EngineCall::Update {
        frame + 1
    } else {
        frame
    }
}

/// The frame counter after a run of calls from a fresh engine.
pub open spec fn frames_after(calls: Seq<EngineCall>) -> int
    decreases calls.len(),
{
    if calls.len() == 0 {
        0
    } else {
        frame_after(frames_after(calls.drop_last()), calls.last())
    }
}

/// How many frame updates a run of calls holds.
pub open spec fn updates_in(calls: Seq<EngineCall>) -> nat
    decreases calls.len(),
{
    if calls.len() == 0 {
        0
    } else {
        updates_in(calls.drop_last()) + if calls.last() == EngineCall::Update { 1nat } else { 0nat }
    }
}

/// After any run of calls from a fresh engine the frame counter is the number
/// of frame updates in it, and it never goes down from one call to the next.
pub proof fn lemma_frames_count_updates(calls: Seq<EngineCall>)
    ensures
        frames_after(calls) == updates_in(calls),
        calls.len() > 0 ==> frames_after(calls.drop_last()) <= frames_after(calls),
    decreases calls.len(),
{
    if calls.len() > 0 {
        lemma_frames_count_updates(calls.drop_last());
    }
}

// -------------------------------------------------------------- particles

/// `v` held to the range of `i32`.
pub open spec fn clamp_i32(v: int) -> i32 {
    if v < i32::MIN {
        i32::MIN
    } else if v > i32::MAX {
        i32::MAX
    } else {
        v as i32
    }
}

/// Horizontal drag: 99 hundredths of the velocity, truncated toward zero.
pub open spec fn dragged(v: int) -> int {
    if v >= 0 {
        v * 99 / 100
    } else {
        -((-v) * 99 / 100)
    }
}

/// A particle one frame later: moved by its velocity, pulled down by
/// gravity, slowed by drag, one frame older.
pub open spec fn stepped(p: Particle) -> Particle {
    Particle {
        x: clamp_i32(p.x + p.vx),
        y: clamp_i32(p.y + p.vy),
        vx: dragged(p.vx as int) as i32,
        vy: clamp_i32(p.vy + GRAVITY),
        glyph: p.glyph,
        hue: p.hue,
        lifetime: if p.lifetime > 0 { (p.lifetime - 1) as u32 } else { 0u32 },
    }
}

/// A particle stays while it has life left and is above the exit line.
pub open spec fn retained(p: Particle) -> bool {
    p.lifetime > 0 && p.y < EXIT_Y
}

/// The particles, each stepped one frame, that are still retained, in order.
pub open spec fn survivors(s: Seq<Particle>) -> Seq<Particle>
    decreases s.len(),
{
    if s.len() == 0 {
        Seq::empty()
    } else {
        let prev = survivors(s.drop_last());
        let q = stepped(s.last());
        if retained(q) {
            prev.push(q)
        } else {
            prev
        }
    }
}

/// A particle stepped `k` frames.
pub open spec fn stepped_n(p: Particle, k: nat) -> Particle
    decreases k,
{
    if k == 0 {
        p
    } else {
        stepped(stepped_n(p, (k - 1) as nat))
    }
}

/// The glyphs of the burst.
pub open spec fn burst_glyph(i: int) -> char {
    if i == 0 {
        '*'
    } else if i == 1 {
        '+'
    } else if i == 2 {
        'o'
    } else if i == 3 {
        '.'
    } else if i == 4 {
        '~'
    } else if i == 5 {
        '^'
    } else if i == 6 {
        '#'
    } else {
        '@'
    }
}

/// The colours of the burst.
pub open spec fn burst_hue(i: int) -> Hue {
    if i == 0 {
        Hue::Red
    } else if i == 1 {
        Hue::LightRed
    } else if i == 2 {
        Hue::Magenta
    } else if i == 3 {
        Hue::LightMagenta
    } else if i == 4 {
        Hue::Yellow
    } else if i == 5 {
        Hue::LightYellow
    } else if i == 6 {
        Hue::Cyan
    } else {
        Hue::LightCyan
    }
}

/// A particle just launched with `l`: at the origin, full life, one of the
/// eight glyphs.
pub open spec fn launched_from(p: Particle, l: Launch) -> bool {
    &&& p.x == 0
    &&& p.y == 0
    &&& p.vx == l.vx
    &&& p.vy == l.vy
    &&& p.lifetime == PARTICLE_LIFETIME
    &&& exists|g: int| 0 <= g < 8 && p.glyph == #[trigger] burst_glyph(g)
}

/// A particle's life counts down by one per frame, so it is gone after
/// `lifetime` frames whatever its path, and until then it is retained
/// exactly while it stays above the exit line.
pub proof fn lemma_lifetime_counts_down(p: Particle, k: nat)
    requires
        k <= p.lifetime,
    ensures
        stepped_n(p, k).lifetime == p.lifetime - k,
        k >= 1 ==> (retained(stepped_n(p, k)) <==> (k < p.lifetime && stepped_n(p, k).y < EXIT_Y)),
        p.lifetime >= 1 ==> !retained(stepped_n(p, p.lifetime as nat)),
{
    lemma_lifetime_counts_down_to(p, k);
    if p.lifetime >= 1 {
        lemma_lifetime_counts_down_to(p, p.lifetime as nat);
    }
}

proof fn lemma_lifetime_counts_down_to(p: Particle, k: nat)
    requires
        k <= p.lifetime,
    ensures
        stepped_n(p, k).lifetime == p.lifetime - k,
    decreases k,
{
    if k > 0 {
        lemma_lifetime_counts_down_to(p, (k - 1) as nat);
    }
}

/// A lone particle after a frame is its stepped self if retained, else gone.
pub proof fn lemma_lone_particle(p: Particle)
    ensures
        survivors(seq![p]) == (if retained(stepped(p)) { seq![stepped(p)] } else { Seq::<Particle>::empty() }),
{
    assert(seq![p].drop_last() =~= Seq::<Particle>::empty());
    assert(seq![p].last() == p);
    assert(survivors(Seq::<Particle>::empty()) == Seq::<Particle>::empty());
    assert(Seq::<Particle>::empty().push(stepped(p)) =~= seq![stepped(p)]);
}

fn clamp_to_i32(v: i64) -> (r: i32)
    ensures
        r == clamp_i32(v as int),
{
    if v < i32::MIN as i64 {
        i32::MIN
    } else if v > i32::MAX as i64 {
        i32::MAX
    } else {
        v as i32
    }
}

/// One frame of physics for one particle.
pub fn step_particle(p: Particle) -> (r: Particle)
    ensures
        r == stepped(p),
{
    let vx: i32 = if p.vx >= 0 {
        let a: u64 = p.vx as u64;
        (a * 99 / 100) as i32
    } else {
        let a: u64 = (-(p.vx as i64)) as u64;
        assert(a * 99 / 100 <= a) by (nonlinear_arith);
        (-((a * 99 / 100) as i64)) as i32
    };
    Particle {
        x: clamp_to_i32(p.x as i64 + p.vx as i64),
        y: clamp_to_i32(p.y as i64 + p.vy as i64),
        vx,
        vy: clamp_to_i32(p.vy as i64 + GRAVITY as i64),
        glyph: p.glyph,
        hue: p.hue,
        lifetime: p.lifetime.saturating_sub(1),
    }
}

/// Every particle moved one frame, keeping, in order, those still retained.
pub fn advance_particles(ps: &Vec<Particle>) -> (r: Vec<Particle>)
    ensures
        r@ == survivors(ps@),
{
    let mut kept: Vec<Particle> = Vec::new();
    let n: usize = ps.len();
    let mut i: usize = 0;
    while i < n
        invariant
            n == ps.len(),
            i <= n,
            kept@ == survivors(ps@.take(i as int)),
        decreases n - i,
    {
        let q = step_particle(ps[i]);
        proof {
            assert(ps@.take(i + 1).drop_last() =~= ps@.take(i as int));
        }
        if q.lifetime > 0 && q.y < EXIT_Y {
            kept.push(q);
        }
        i += 1;
    }
    proof {
        assert(ps@.take(n as int) =~= ps@);
    }
    kept
}

/// The glyph with index `i` of the burst's eight.
pub fn glyph_for(i: u32) -> (r: char)
    requires
        i < 8,
    ensures
        r == burst_glyph(i as int),
{
    match i {
        0 => '*',
        1 => '+',
        2 => 'o',
        3 => '.',
        4 => '~',
        5 => '^',
        6 => '#',
        _ => '@',
    }
}

/// The colour with index `i` of the burst's eight.
pub fn hue_for(i: u32) -> (r: Hue)
    requires
        i < 8,
    ensures
        r == burst_hue(i as int),
{
    match i {
        0 => Hue::Red,
        1 => Hue::LightRed,
        2 => Hue::Magenta,
        3 => Hue::LightMagenta,
        4 => Hue::Yellow,
        5 => Hue::LightYellow,
        6 => Hue::Cyan,
        _ => Hue::LightCyan,
    }
}

/// The particle launched with `l`, wearing glyph `glyph_index` and colour
/// `hue_index` of the eight.
pub fn launch_particle(l: Launch, glyph_index: u32, hue_index: u32) -> (r: Particle)
    requires
        glyph_index < 8,
        hue_index < 8,
    ensures
        r == (Particle {
            x: 0,
            y: 0,
            vx: l.vx,
            vy: l.vy,
            glyph: burst_glyph(glyph_index as int),
            hue: burst_hue(hue_index as int),
            lifetime: PARTICLE_LIFETIME,
        }),
        launched_from(r, l),
{
    Particle {
        x: 0,
        y: 0,
        vx: l.vx,
        vy: l.vy,
        glyph: glyph_for(glyph_index),
        hue: hue_for(hue_index),
        lifetime: PARTICLE_LIFETIME,
    }
}

/// Appends one particle per launch, in order, each with a randomly drawn
/// glyph and colour.
fn push_burst(ps: &mut Vec<Particle>, launches: &Vec<Launch>)
    ensures
        final(ps)@.len() == old(ps)@.len() + launches@.len(),
        final(ps)@.take(old(ps)@.len() as int) == old(ps)@,
        forall|i: int|
            0 <= i < launches@.len() ==> launched_from(
                #[trigger] final(ps)@[old(ps)@.len() + i],
                launches@[i],
            ),
{
    let base: usize = ps.len();
    let n: usize = launches.len();
    let mut i: usize = 0;
    while i < n
        invariant
            n == launches@.len(),
            i <= n,
            base == old(ps)@.len(),
            ps@.len() == base + i,
            ps@.take(base as int) == old(ps)@,
            forall|j: int| 0 <= j < i ==> launched_from(#[trigger] ps@[base + j], launches@[j]),
        decreases n - i,
    {
        let g = random_in(0, 8);
        let h = random_in(0, 8);
        let p = launch_particle(launches[i], g, h);
        proof {
            assert(ps@.push(p).take(base as int) =~= ps@.take(base as int));
        }
        ps.push(p);
        i += 1;
    }
}

// ------------------------------------------------------------------ stars

/// A star as it may stand in a starfield.
pub open spec fn star_ok(s: Star) -> bool {
    1 <= s.twinkle_speed < MAX_TWINKLE_SPEED && s.brightness < BRIGHTNESS_LEVELS
}

/// A star placed inside a `width` by `height` screen.
pub open spec fn star_fits(s: Star, width: u16, height: u16) -> bool {
    star_ok(s) && s.x < width && s.y < height
}

/// The brightness of a star at frame `frame`.
pub open spec fn brightness_at(speed: u8, frame: int) -> int {
    (frame / speed as int) % (BRIGHTNESS_LEVELS as int)
}

/// A star with its brightness set for frame `frame`.
pub open spec fn twinkled(s: Star, frame: int) -> Star {
    Star { x: s.x, y: s.y, brightness: brightness_at(s.twinkle_speed, frame) as u8, twinkle_speed: s.twinkle_speed }
}

/// A star's brightness repeats every `10 * twinkle_speed` frames and is
/// always one of the levels 0 to 9.
pub proof fn lemma_twinkle_period(speed: u8, frame: nat)
    requires
        speed >= 1,
    ensures
        brightness_at(speed, frame + 10 * speed) == brightness_at(speed, frame as int),
        0 <= brightness_at(speed, frame as int) <= 9,
{
    let d = speed as nat;
    lemma_hoist_over_denominator(frame as int, 10, d);
    assert(frame as int / d as int >= 0) by (nonlinear_arith)
        requires
            d > 0,
    ;
    lemma_mod_multiples_vanish(1, frame as int / d as int, 10);
}

/// A star set for frame `frame` and for frame `frame + 10 * twinkle_speed`
/// is the same star: the whole twinkle repeats with that period.
pub proof fn lemma_star_repeats(s: Star, frame: nat)
    requires
        s.twinkle_speed >= 1,
    ensures
        twinkled(s, frame + 10 * s.twinkle_speed) == twinkled(s, frame as int),
        twinkled(s, frame as int).brightness <= 9,
{
    lemma_twinkle_period(s.twinkle_speed, frame);
}

/// Every star with its brightness set for frame `frame`.
pub fn twinkle_stars(stars: &Vec<Star>, frame: u64) -> (r: Vec<Star>)
    requires
        forall|i: int| 0 <= i < stars@.len() ==> (#[trigger] stars@[i]).twinkle_speed >= 1,
    ensures
        r@.len() == stars@.len(),
        forall|i: int| 0 <= i < stars@.len() ==> #[trigger] r@[i] == twinkled(stars@[i], frame as int),
{
    let mut lit: Vec<Star> = Vec::new();
    let n: usize = stars.len();
    let mut i: usize = 0;
    while i < n
        invariant
            n == stars@.len(),
            i <= n,
            lit@.len() == i,
            forall|j: int| 0 <= j < stars@.len() ==> (#[trigger] stars@[j]).twinkle_speed >= 1,
            forall|j: int| 0 <= j < i ==> #[trigger] lit@[j] == twinkled(stars@[j], frame as int),
        decreases n - i,
    {
        let s = stars[i];
        let level: u64 = (frame / s.twinkle_speed as u64) % BRIGHTNESS_LEVELS;
        lit.push(Star { x: s.x, y: s.y, brightness: level as u8, twinkle_speed: s.twinkle_speed });
        i += 1;
    }
    lit
}

/// A star at cell (`x`, `y`) with the given starting brightness and speed.
pub fn place_star(x: u16, y: u16, brightness: u8, twinkle_speed: u8) -> (r: Star)
    ensures
        r == (Star { x, y, brightness, twinkle_speed }),
{
    Star { x, y, brightness, twinkle_speed }
}

// -------------------------------------------------------------------- app

impl App {
    /// The state's invariant: a starfield is empty until initialised and then
    /// full, every star is valid, and the button offset follows the count of
    /// declines.
    pub open spec fn wf(&self) -> bool {
        &&& self.stars_initialized ==> self.stars@.len() == STAR_COUNT
        &&& !self.stars_initialized ==> self.stars@.len() == 0
        &&& forall|i: int| 0 <= i < self.stars@.len() ==> star_ok(#[trigger] self.stars@[i])
        &&& self.attempt_count == 0 ==> self.no_button_offset == (0i16, 0i16)
        &&& self.attempt_count > 0 ==> self.no_button_offset == decline_offset(self.attempt_count as int)
    }

    /// A fresh engine: asking the question, nothing counted, nothing on screen.
    pub fn new() -> (r: Self)
        ensures
            r.wf(),
            r.state == AppState::Question,
            r.no_button_offset == (0i16, 0i16),
            r.attempt_count == 0,
            r.frame_count == 0,
            r.particles@.len() == 0,
            r.stars@.len() == 0,
            !r.stars_initialized,
    {
        App {
            state: AppState::Question,
            no_button_offset: (0, 0),
            attempt_count: 0,
            frame_count: 0,
            particles: Vec::new(),
            stars: Vec::new(),
            stars_initialized: false,
        }
    }

    /// Fills the starfield once, with stars at random cells of a `width` by
    /// `height` screen; once filled, later calls change nothing, whatever
    /// the size.
    pub fn init_stars(&mut self, width: u16, height: u16)
        requires
            old(self).wf(),
            !old(self).stars_initialized ==> width > 0 && height > 0,
        ensures
            final(self).wf(),
            final(self).stars_initialized,
            old(self).stars_initialized ==> final(self).stars@ == old(self).stars@,
            !old(self).stars_initialized ==> final(self).stars@.len() == STAR_COUNT,
            !old(self).stars_initialized ==> forall|i: int|
                0 <= i < STAR_COUNT ==> star_fits(#[trigger] final(self).stars@[i], width, height),
            final(self).state == old(self).state,
            final(self).no_button_offset == old(self).no_button_offset,
            final(self).attempt_count == old(self).attempt_count,
            final(self).frame_count == frame_after(old(self).frame_count as int, EngineCall::InitStars),
            final(self).particles@ == old(self).particles@,
    {
        if !self.stars_initialized {
            assert(width > 0 && height > 0);
            let mut made: Vec<Star> = Vec::new();
            let mut i: usize = 0;
            while i < STAR_COUNT
                invariant
                    i <= STAR_COUNT,
                    made@.len() == i,
                    width > 0,
                    height > 0,
                    forall|j: int| 0 <= j < i ==> star_fits(#[trigger] made@[j], width, height),
                decreases STAR_COUNT - i,
            {
                let x = random_in(0, width as u32);
                let y = random_in(0, height as u32);
                let b = random_in(0, BRIGHTNESS_LEVELS as u32);
                let t = random_in(1, MAX_TWINKLE_SPEED as u32);
                made.push(place_star(x as u16, y as u16, b as u8, t as u8));
                i += 1;
            }
            self.stars = made;
            self.stars_initialized = true;
        }
    }

    /// Says yes: the celebration phase, with one new particle per launch
    /// appended after those already flying.
    pub fn handle_yes(&mut self, launches: &Vec<Launch>)
        requires
            old(self).wf(),
            launches@.len() == BURST_SIZE,
        ensures
            final(self).wf(),
            final(self).state == phase_after(Command::AcceptYes),
            final(self).particles@.len() == old(self).particles@.len() + BURST_SIZE,
            final(self).particles@.take(old(self).particles@.len() as int) == old(self).particles@,
            forall|i: int|
                0 <= i < BURST_SIZE ==> launched_from(
                    #[trigger] final(self).particles@[old(self).particles@.len() + i],
                    launches@[i],
                ),
            final(self).no_button_offset == old(self).no_button_offset,
            final(self).attempt_count == old(self).attempt_count,
            final(self).frame_count == frame_after(old(self).frame_count as int, EngineCall::AcceptYes),
            final(self).stars@ == old(self).stars@,
            final(self).stars_initialized == old(self).stars_initialized,
    {
        self.state = AppState::AcceptedYes;
        self.spawn_celebration_particles(launches);
    }

    fn spawn_celebration_particles(&mut self, launches: &Vec<Launch>)
        ensures
            final(self).particles@.len() == old(self).particles@.len() + launches@.len(),
            final(self).particles@.take(old(self).particles@.len() as int) == old(self).particles@,
            forall|i: int|
                0 <= i < launches@.len() ==> launched_from(
                    #[trigger] final(self).particles@[old(self).particles@.len() + i],
                    launches@[i],
                ),
            final(self).state == old(self).state,
            final(self).no_button_offset == old(self).no_button_offset,
            final(self).attempt_count == old(self).attempt_count,
            final(self).frame_count == old(self).frame_count,
            final(self).stars@ == old(self).stars@,
            final(self).stars_initialized == old(self).stars_initialized,
    {
        push_burst(&mut self.particles, launches);
    }

    /// Says maybe: the hesitant phase; nothing else changes.
    pub fn handle_maybe(&mut self)
        requires
            old(self).wf(),
        ensures
            final(self).wf(),
            final(self).state == phase_after(Command::AcceptMaybe),
            final(self).no_button_offset == old(self).no_button_offset,
            final(self).attempt_count == old(self).attempt_count,
            final(self).frame_count == frame_after(old(self).frame_count as int, EngineCall::AcceptMaybe),
            final(self).particles@ == old(self).particles@,
            final(self).stars@ == old(self).stars@,
            final(self).stars_initialized == old(self).stars_initialized,
    {
        self.state = AppState::AcceptedMaybe;
    }

    /// Tries to say no: the blocked phase, one more decline counted
    /// (saturating) and the button pushed to the offset for that count.
    pub fn handle_no(&mut self)
        requires
            old(self).wf(),
        ensures
            final(self).wf(),
            final(self).state == phase_after(Command::AttemptDecline),
            (final(self).attempt_count, final(self).no_button_offset) == control_after(
                old(self).attempt_count,
                old(self).no_button_offset,
                Command::AttemptDecline,
            ),
            final(self).frame_count == frame_after(old(self).frame_count as int, EngineCall::AttemptDecline),
            final(self).particles@ == old(self).particles@,
            final(self).stars@ == old(self).stars@,
            final(self).stars_initialized == old(self).stars_initialized,
    {
        self.attempt_count = self.attempt_count.saturating_add(1);
        let n: u64 = self.attempt_count as u64;
        let dx: i64 = ((n * 7) % 30) as i64 - 15;
        let dy: i64 = ((n * 11) % 20) as i64 - 10;
        self.no_button_offset = (dx as i16, dy as i16);
        self.state = AppState::TryingNo;
    }

    /// Applies one command: the phase becomes the one the command leads to,
    /// and the decline counter and offset move as `control_after` says.
    pub fn apply(&mut self, c: Command, launches: &Vec<Launch>)
        requires
            old(self).wf(),
            launches@.len() == BURST_SIZE,
        ensures
            final(self).wf(),
            final(self).state == phase_after(c),
            (final(self).attempt_count, final(self).no_button_offset) == control_after(
                old(self).attempt_count,
                old(self).no_button_offset,
                c,
            ),
            c == Command::AcceptYes ==> final(self).particles@.len() == old(self).particles@.len() + BURST_SIZE,
            c == Command::AcceptYes ==> final(self).particles@.take(old(self).particles@.len() as int) == old(self).particles@,
            c == Command::AcceptYes ==> forall|i: int|
                0 <= i < BURST_SIZE ==> launched_from(
                    #[trigger] final(self).particles@[old(self).particles@.len() + i],
                    launches@[i],
                ),
            c != Command::AcceptYes ==> final(self).particles@ == old(self).particles@,
            final(self).frame_count == old(self).frame_count,
            final(self).stars@ == old(self).stars@,
    {
        match c {
            Command::AcceptYes => self.handle_yes(launches),
            Command::AcceptMaybe => self.handle_maybe(),
            Command::AttemptDecline => self.handle_no(),
        }
    }

    /// One frame: the counter goes up by one, every particle moves and those
    /// out of life or below the exit line go, and every star takes the
    /// brightness of the new frame.
    pub fn update(&mut self)
        requires
            old(self).wf(),
            old(self).frame_count < u64::MAX,
        ensures
            final(self).wf(),
            final(self).frame_count == frame_after(old(self).frame_count as int, EngineCall::Update),
            final(self).particles@ == survivors(old(self).particles@),
            final(self).stars@.len() == old(self).stars@.len(),
            forall|i: int|
                0 <= i < old(self).stars@.len() ==> #[trigger] final(self).stars@[i] == twinkled(
                    old(self).stars@[i],
                    final(self).frame_count as int,
                ),
            final(self).state == old(self).state,
            final(self).no_button_offset == old(self).no_button_offset,
            final(self).attempt_count == old(self).attempt_count,
            final(self).stars_initialized == old(self).stars_initialized,
    {
        let frame: u64 = self.frame_count + 1;
        let kept = advance_particles(&self.particles);
        let lit = twinkle_stars(&self.stars, frame);
        proof {
            assert forall|i: int| 0 <= i < lit@.len() implies star_ok(#[trigger] lit@[i]) by {
                assert(lit@[i] == twinkled(self.stars@[i], frame as int));
                lemma_twinkle_period(self.stars@[i].twinkle_speed, frame as nat);
            }
        }
        self.frame_count = frame;
        self.particles = kept;
        self.stars = lit;
    }
}

} // verus!
