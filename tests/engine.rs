use valentine::engine::{
    advance_particles, launch_particle, step_particle, twinkle_stars, App, AppState, Command, Hue,
    Launch, Particle, Star, BURST_SIZE, EXIT_Y, PARTICLE_LIFETIME, STAR_COUNT,
};

fn launches() -> Vec<Launch> {
    (0..BURST_SIZE as i32).map(|i| Launch { vx: i * 10 - 500, vy: -3000 + i }).collect()
}

fn resting(lifetime: u32, y: i32) -> Particle {
    Particle { x: 0, y, vx: 0, vy: 0, glyph: '*', hue: Hue::Red, lifetime }
}

fn app_in(state: AppState) -> App {
    let mut app = App::new();
    match state {
        AppState::Question => {}
        AppState::AcceptedYes => app.handle_yes(&launches()),
        AppState::AcceptedMaybe => app.handle_maybe(),
        AppState::TryingNo => app.handle_no(),
    }
    assert_eq!(app.state, state);
    app
}

#[test]
fn every_command_from_every_phase_reaches_its_phase() {
    let phases = [AppState::Question, AppState::AcceptedYes, AppState::AcceptedMaybe, AppState::TryingNo];
    let table = [
        (Command::AcceptYes, AppState::AcceptedYes),
        (Command::AcceptMaybe, AppState::AcceptedMaybe),
        (Command::AttemptDecline, AppState::TryingNo),
    ];
    for from in phases {
        for (cmd, to) in table {
            let mut app = app_in(from);
            app.apply(cmd, &launches());
            assert_eq!(app.state, to);
        }
    }
}

#[test]
fn new_app_starts_on_the_question() {
    let app = App::new();
    assert_eq!(app.state, AppState::Question);
    assert_eq!(app.attempt_count, 0);
    assert_eq!(app.no_button_offset, (0, 0));
    assert_eq!(app.frame_count, 0);
    assert!(app.particles.is_empty());
    assert!(app.stars.is_empty());
    assert!(!app.stars_initialized);
}

fn offset_after(n: u32) -> (i16, i16) {
    let mut app = App::new();
    for _ in 0..n {
        app.handle_no();
    }
    assert_eq!(app.attempt_count, n);
    app.no_button_offset
}

#[test]
fn decline_offset_follows_the_formula() {
    assert_eq!(offset_after(1), (-8, 1));
    assert_eq!(offset_after(2), (-1, -8));
    assert_eq!(offset_after(3), (6, 3));
    assert_eq!(offset_after(10), (-5, 0));
    assert_eq!(offset_after(30), (-15, 0));
}

#[test]
fn decline_offset_ignores_other_commands() {
    let mut app = App::new();
    app.handle_yes(&launches());
    app.handle_no();
    app.handle_maybe();
    app.handle_yes(&launches());
    app.handle_no();
    assert_eq!(app.attempt_count, 2);
    assert_eq!(app.no_button_offset, (-1, -8));
}

#[test]
fn accept_yes_launches_one_full_burst() {
    let mut app = App::new();
    app.handle_maybe();
    let ls = launches();
    app.handle_yes(&ls);
    assert_eq!(app.particles.len(), 100);
    let glyphs = ['*', '+', 'o', '.', '~', '^', '#', '@'];
    for (p, l) in app.particles.iter().zip(ls.iter()) {
        assert_eq!((p.x, p.y), (0, 0));
        assert_eq!((p.vx, p.vy), (l.vx, l.vy));
        assert_eq!(p.lifetime, 100);
        assert!(glyphs.contains(&p.glyph));
    }
    app.handle_yes(&ls);
    assert_eq!(app.particles.len(), 200);
}

#[test]
fn launched_particle_takes_the_drawn_glyph_and_hue() {
    let p = launch_particle(Launch { vx: 7, vy: -9 }, 6, 2);
    assert_eq!(p, Particle { x: 0, y: 0, vx: 7, vy: -9, glyph: '#', hue: Hue::Magenta, lifetime: PARTICLE_LIFETIME });
}

#[test]
fn particle_step_integrates_and_drags() {
    let p = Particle { x: 10, y: 20, vx: 1000, vy: -3000, glyph: 'o', hue: Hue::Cyan, lifetime: 5 };
    let q = step_particle(p);
    assert_eq!(q, Particle { x: 1010, y: -2980, vx: 990, vy: -2850, glyph: 'o', hue: Hue::Cyan, lifetime: 4 });
    let r = step_particle(Particle { vx: -1001, lifetime: 0, ..p });
    assert_eq!(r.vx, -990);
    assert_eq!(r.lifetime, 0);
    let s = step_particle(Particle { x: i32::MAX, vx: 5, ..p });
    assert_eq!(s.x, i32::MAX);
}

#[test]
fn resting_particle_falls_out_at_the_exit_line() {
    let mut app = App::new();
    app.particles.push(resting(100, 0));
    for _ in 0..26 {
        app.update();
    }
    assert_eq!(app.particles.len(), 1);
    assert_eq!(app.particles[0].y, 48750);
    assert!(app.particles[0].y < EXIT_Y);
    app.update();
    assert!(app.particles.is_empty());
}

#[test]
fn high_particle_lives_out_its_lifetime() {
    let mut app = App::new();
    app.particles.push(resting(100, -1_000_000));
    for frame in 1..100 {
        app.update();
        assert_eq!(app.particles.len(), 1);
        assert_eq!(app.particles[0].lifetime, 100 - frame);
    }
    app.update();
    assert!(app.particles.is_empty());
}

#[test]
fn survivors_keep_their_order() {
    let ps = vec![resting(3, 0), resting(1, 0), resting(2, 0)];
    let kept = advance_particles(&ps);
    assert_eq!(kept.len(), 2);
    assert_eq!(kept[0].lifetime, 2);
    assert_eq!(kept[1].lifetime, 1);
    assert!(advance_particles(&vec![resting(5, EXIT_Y)]).is_empty());
}

#[test]
fn stars_fill_once_inside_the_screen() {
    let mut app = App::new();
    app.init_stars(80, 24);
    assert!(app.stars_initialized);
    assert_eq!(app.stars.len(), STAR_COUNT);
    for s in &app.stars {
        assert!(s.x < 80 && s.y < 24);
        assert!(s.brightness < 10);
        assert!((1..5).contains(&s.twinkle_speed));
    }
    assert!(app.stars.iter().any(|s| s.x != 0));
    assert!(app.stars.iter().any(|s| s.twinkle_speed != 1));
    let before = app.stars.clone();
    app.init_stars(3, 2);
    assert_eq!(app.stars, before);
    app.init_stars(200, 100);
    assert_eq!(app.stars, before);
    app.init_stars(0, 0);
    assert_eq!(app.stars, before);
    assert!(app.stars_initialized);
}

#[test]
fn star_brightness_cycles_with_its_speed() {
    let stars = vec![Star { x: 1, y: 2, brightness: 0, twinkle_speed: 3 }];
    let at = |f: u64| twinkle_stars(&stars, f)[0].brightness;
    assert_eq!(at(0), 0);
    assert_eq!(at(2), 0);
    assert_eq!(at(3), 1);
    assert_eq!(at(29), 9);
    assert_eq!(at(30), 0);
    for f in 0..200u64 {
        assert_eq!(at(f), at(f + 30));
        assert!(at(f) <= 9);
    }
    assert_eq!(twinkle_stars(&stars, 7)[0], Star { x: 1, y: 2, brightness: 2, twinkle_speed: 3 });
}

#[test]
fn only_updates_move_the_frame_counter() {
    let mut app = App::new();
    app.update();
    app.init_stars(30, 10);
    app.handle_yes(&launches());
    app.update();
    app.handle_maybe();
    app.handle_no();
    app.apply(Command::AttemptDecline, &launches());
    app.update();
    assert_eq!(app.frame_count, 3);
}

#[test]
fn update_counts_frames_and_twinkles() {
    let mut app = App::new();
    app.init_stars(40, 20);
    for n in 1..=50u64 {
        app.update();
        assert_eq!(app.frame_count, n);
        for s in &app.stars {
            assert_eq!(s.brightness as u64, (n / s.twinkle_speed as u64) % 10);
        }
    }
}
