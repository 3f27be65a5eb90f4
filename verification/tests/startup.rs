use krabmaga::{plan_init_system, StartupEffect, WindowLookup};

#[test]
fn single_primary_window_runs_full_startup() {
    assert_eq!(
        plan_init_system(WindowLookup::OneWindow),
        vec![
            StartupEffect::Announce,
            StartupEffect::SpawnCamera,
            StartupEffect::RunOnInit,
            StartupEffect::RunSetupGraphics,
        ]
    );
}

#[test]
fn missing_primary_window_does_nothing() {
    assert!(plan_init_system(WindowLookup::NoWindow).is_empty());
}

#[test]
fn several_primary_windows_do_nothing() {
    assert!(plan_init_system(WindowLookup::ManyWindows).is_empty());
}

#[test]
fn at_most_one_camera_for_every_lookup() {
    for lookup in [WindowLookup::NoWindow, WindowLookup::OneWindow, WindowLookup::ManyWindows] {
        let cameras = plan_init_system(lookup)
            .into_iter()
            .filter(|e| *e == StartupEffect::SpawnCamera)
            .count();
        assert!(cameras <= 1);
        assert_eq!(cameras == 1, lookup == WindowLookup::OneWindow);
    }
}

#[test]
fn callbacks_run_after_the_camera() {
    let effects = plan_init_system(WindowLookup::OneWindow);
    let pos = |e: StartupEffect| effects.iter().position(|x| *x == e).unwrap();
    assert!(pos(StartupEffect::Announce) < pos(StartupEffect::SpawnCamera));
    assert!(pos(StartupEffect::SpawnCamera) < pos(StartupEffect::RunOnInit));
    assert!(pos(StartupEffect::RunOnInit) < pos(StartupEffect::RunSetupGraphics));
}
