use dirsync::coordinator::InFlight;
use dirsync::path::Component;
use dirsync::path::SyncPath;

fn p(text: &str) -> SyncPath {
    let mut components = Vec::new();
    if text.starts_with('/') {
        components.push(Component::RootDir);
    }
    for name in text.split('/').filter(|s| !s.is_empty()) {
        components.push(Component::Normal(name.to_string()));
    }
    SyncPath { components }
}

#[test]
fn nothing_is_in_flight_at_first() {
    let work = InFlight::new();
    assert_eq!(work.len(), 0);
    assert_eq!(work.task_for(&p("/src/a")), None);
}

#[test]
fn a_registered_path_has_its_task() {
    let mut work = InFlight::new();
    assert_eq!(work.register(&p("/src/a"), 1), None);
    assert_eq!(work.register(&p("/src/b"), 2), None);
    assert_eq!(work.task_for(&p("/src/a")), Some(1));
    assert_eq!(work.task_for(&p("/src/b")), Some(2));
    assert_eq!(work.task_for(&p("/src/c")), None);
    assert_eq!(work.len(), 2);
}

#[test]
fn a_later_task_takes_the_path_over() {
    let mut work = InFlight::new();
    work.register(&p("/src/a"), 1);
    assert_eq!(work.register(&p("/src/a"), 2), Some(1));
    assert_eq!(work.task_for(&p("/src/a")), Some(2));
    assert_eq!(work.len(), 1);
}

#[test]
fn a_finished_task_is_struck_off_every_path() {
    let mut work = InFlight::new();
    work.register(&p("/src/a"), 1);
    work.register(&p("/src/b"), 2);
    work.register(&p("/src/c"), 1);
    work.finish(1);
    assert_eq!(work.task_for(&p("/src/a")), None);
    assert_eq!(work.task_for(&p("/src/c")), None);
    assert_eq!(work.task_for(&p("/src/b")), Some(2));
    assert_eq!(work.len(), 1);
}

#[test]
fn finishing_leaves_the_paths_that_were_taken_over() {
    let mut work = InFlight::new();
    work.register(&p("/src/a"), 1);
    work.register(&p("/src/a"), 2);
    work.finish(1);
    assert_eq!(work.task_for(&p("/src/a")), Some(2));
    work.finish(2);
    assert_eq!(work.len(), 0);
}

#[test]
fn finishing_an_unknown_task_changes_nothing() {
    let mut work = InFlight::new();
    work.register(&p("/src/a"), 1);
    work.finish(7);
    assert_eq!(work.task_for(&p("/src/a")), Some(1));
    assert_eq!(work.len(), 1);
}
