use af::host::{
    Elapsed, HostAction, HostState, GAME_ARENA_BYTES, GAME_LIB_DIR, GAME_LIB_FILE,
    GAME_LIB_FILE_WINDOWS, GAME_LIB_PATH, GAME_LIB_PATH_WINDOWS, GL_ARENA_BYTES, LOAD_SYMBOL,
    NOMINAL_FRAME_SECONDS, UPDATE_SYMBOL,
};
use af::platform::win32::{watch_for_updated_game_lib, WatchAction};
use af::platform::{linux, osx, win32};

fn reload() -> Vec<HostAction> {
    vec![
        HostAction::DropLibrary,
        HostAction::CopyLibrary,
        HostAction::LoadLibrary,
        HostAction::ResolveSymbols,
        HostAction::CallLoad { first_load: false },
    ]
}

#[test]
fn where_the_module_lies() {
    assert_eq!(GAME_LIB_DIR, "./af/target/debug/");
    assert_eq!(GAME_LIB_PATH, "./af/target/debug/libaf.so");
    assert_eq!(GAME_LIB_FILE, "./libaf.so");
    assert_eq!(GAME_LIB_PATH_WINDOWS, "./af/target/debug/af.dll");
    assert_eq!(GAME_LIB_FILE_WINDOWS, "./af.dll");
    assert_eq!((LOAD_SYMBOL, UPDATE_SYMBOL), ("load", "update"));
    assert_eq!((GAME_ARENA_BYTES, GL_ARENA_BYTES), (4096, 1024));
    assert_eq!(f32::from_bits(NOMINAL_FRAME_SECONDS), 1.0 / 60.0);
}

#[test]
fn a_cold_host_starts_by_loading_for_the_first_time() {
    let mut host = HostState::new();
    assert_eq!(host, HostState::Cold);
    let actions = host.start();
    assert_eq!(
        actions,
        vec![
            HostAction::AllocateArenas,
            HostAction::CopyLibrary,
            HostAction::LoadLibrary,
            HostAction::ResolveSymbols,
            HostAction::SpawnWatcher,
            HostAction::CallLoad { first_load: true },
        ]
    );
    assert_eq!(host, HostState::Running { last_frame_time: 0 });
    assert!(host.start().is_empty());
    assert_eq!(host, HostState::Running { last_frame_time: 0 });
}

#[test]
fn a_cold_host_runs_no_frames() {
    let mut host = HostState::Cold;
    assert!(host.frame(1000, true).is_empty());
    assert_eq!(host, HostState::Cold);
}

#[test]
fn the_first_frame_takes_the_nominal_time() {
    let mut host = HostState::Cold;
    host.start();
    let actions = host.frame(5_000, false);
    assert_eq!(actions, vec![HostAction::CallUpdate { elapsed: Elapsed::Nominal }]);
    assert_eq!(host, HostState::Running { last_frame_time: 5_000 });
    let actions = host.frame(5_750, false);
    assert_eq!(actions, vec![HostAction::CallUpdate { elapsed: Elapsed::Ticks { ticks: 750 } }]);
    assert_eq!(host, HostState::Running { last_frame_time: 5_750 });
}

#[test]
fn a_pending_reload_comes_before_the_update() {
    let mut host = HostState::Running { last_frame_time: 100 };
    let actions = host.frame(160, true);
    let mut expected = reload();
    expected.push(HostAction::CallUpdate { elapsed: Elapsed::Ticks { ticks: 60 } });
    assert_eq!(actions, expected);
    assert_eq!(host, HostState::Running { last_frame_time: 160 });
    let actions = host.frame(170, false);
    assert_eq!(actions, vec![HostAction::CallUpdate { elapsed: Elapsed::Ticks { ticks: 10 } }]);
}

#[test]
fn ticks_are_exact_at_the_ends_of_the_counter() {
    let mut host = HostState::Running { last_frame_time: i64::MIN };
    let actions = host.frame(i64::MAX, false);
    assert_eq!(
        actions,
        vec![HostAction::CallUpdate {
            elapsed: Elapsed::Ticks { ticks: i64::MAX as i128 - i64::MIN as i128 }
        }]
    );
    let mut host = HostState::Running { last_frame_time: 10 };
    let actions = host.frame(4, false);
    assert_eq!(actions, vec![HostAction::CallUpdate { elapsed: Elapsed::Ticks { ticks: -6 } }]);
}

#[test]
fn linux_counts_nanoseconds() {
    assert_eq!(linux::query_performance_frequency(), 1_000_000_000);
    assert_eq!(linux::CLOCK_MONOTONIC_RAW, 4);
    let mut counter = 0;
    linux::query_performance_counter(&mut counter, 12, 345_678_901);
    assert_eq!(counter, 12_345_678_901);
    linux::query_performance_counter(&mut counter, 0, 0);
    assert_eq!(counter, 0);
    assert!(linux::counter_fits(12, 345_678_901));
    assert!(linux::counter_fits(9_223_372_036, 854_775_807));
    assert!(!linux::counter_fits(9_223_372_036, 854_775_808));
    assert!(!linux::counter_fits(9_223_372_037, 0));
    assert!(linux::counter_fits(0, i64::MIN));
    assert!(linux::counter_fits(1, i64::MIN));
    linux::query_performance_counter(&mut counter, 9_223_372_036, 854_775_807);
    assert_eq!(counter, i64::MAX);
}

#[test]
fn macos_folds_the_counter_and_divides_the_timebase() {
    let mut counter = 0;
    osx::query_performance_counter(&mut counter, 42);
    assert_eq!(counter, 42);
    osx::query_performance_counter(&mut counter, i64::MAX as u64);
    assert_eq!(counter, i64::MAX);
    osx::query_performance_counter(&mut counter, i64::MAX as u64 + 5);
    assert_eq!(counter, 5);
    osx::query_performance_counter(&mut counter, u64::MAX - 1);
    assert_eq!(counter, i64::MAX);
    osx::query_performance_counter(&mut counter, u64::MAX);
    assert_eq!(counter, i64::MIN);
    assert_eq!(osx::query_performance_frequency(1, 1_000_000_000), 1_000_000_000);
    assert_eq!(osx::query_performance_frequency(3, 125), 41);
    assert_eq!(osx::query_performance_frequency(125, 3), 0);
}

#[test]
fn windows_signals_only_a_change_of_the_module() {
    let module = String::from("af.dlladata.");
    let other = String::from("af.pdb");
    assert_eq!(watch_for_updated_game_lib(true, 0, &module), WatchAction::SignalReload);
    assert_eq!(watch_for_updated_game_lib(true, 0, &other), WatchAction::Ignore);
    assert_eq!(watch_for_updated_game_lib(true, 0, &String::from("af.dll")), WatchAction::Ignore);
    assert_eq!(watch_for_updated_game_lib(true, 0, &String::new()), WatchAction::Ignore);
    assert_eq!(watch_for_updated_game_lib(true, 16, &module), WatchAction::Abort);
    assert_eq!(watch_for_updated_game_lib(true, -1, &other), WatchAction::Abort);
    assert_eq!(watch_for_updated_game_lib(false, 0, &module), WatchAction::ReportFailure);
    assert_eq!(watch_for_updated_game_lib(false, 16, &module), WatchAction::ReportFailure);
    assert_eq!(win32::GAME_LIB_REPORTED_NAME, "af.dlladata.");
    assert_eq!(win32::FILE_NOTIFY_CHANGE_LAST_WRITE, 0x10);
    assert_eq!(win32::RESULTS_BUFFER_BYTES, 1024);
}
