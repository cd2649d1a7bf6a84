use setup_sync::engine::{filter_setup_files, plan_downloads};
use setup_sync::models::{CarInfo, DatapackFile, Metadata, TrackInfo};
use setup_sync::naming::{artifact_dir_path, artifact_full_path, resolve_car_name, resolve_track_name};

fn file(name: &str, display: &str, car: u32, track: u32, pack: &str, session: &str) -> DatapackFile {
    DatapackFile {
        file_name: name.to_string(),
        display_name: display.to_string(),
        track_id: track,
        car_id: car,
        datapack_id: pack.to_string(),
        session_id: session.to_string(),
    }
}

fn sample_metadata() -> Metadata {
    Metadata {
        cars: vec![(
            "5".to_string(),
            CarInfo { id: 5, display_name: "Car Five".to_string(), iracing_path: None },
        )],
        tracks: vec![(
            "7".to_string(),
            TrackInfo { id: 7, display_name: "Spa".to_string(), iracing_path: None },
        )],
    }
}

#[test]
fn filtering_keeps_only_lowercase_sto() {
    let files = vec![
        file("a.sto", "a.sto", 1, 1, "p", "s"),
        file("b.json", "b.json", 1, 1, "p", "s"),
        file("c.STO", "c.STO", 1, 1, "p", "s"),
    ];
    let kept = filter_setup_files(&files);
    assert_eq!(kept.len(), 1);
    assert_eq!(kept[0].file_name, "a.sto");
}

#[test]
fn filtering_needs_at_least_the_suffix() {
    let files = vec![
        file("sto", "sto", 1, 1, "p", "s"),
        file(".sto", ".sto", 1, 1, "p", "s"),
        file("x.sto", "x.sto", 1, 1, "p", "s"),
    ];
    let kept = filter_setup_files(&files);
    assert_eq!(kept.len(), 2);
    assert_eq!(kept[0].file_name, ".sto");
    assert_eq!(kept[1].file_name, "x.sto");
}

#[test]
fn resolved_path_uses_catalog_and_synthetic_fallback() {
    let m = Metadata {
        cars: vec![(
            "5".to_string(),
            CarInfo { id: 5, display_name: "Car Five".to_string(), iracing_path: None },
        )],
        tracks: vec![],
    };
    let f = file("x.sto", "Setup A.sto", 5, 9, "d", "s");
    let p = artifact_full_path(&m, &f);
    assert_eq!(p, "setups/Car Five/track_9/Setup A.sto");
}

#[test]
fn car_path_override_wins_over_display_name() {
    let m = Metadata {
        cars: vec![(
            "5".to_string(),
            CarInfo {
                id: 5,
                display_name: "Porsche 911 GT3".to_string(),
                iracing_path: Some("porsche911gt3".to_string()),
            },
        )],
        tracks: vec![],
    };
    assert_eq!(resolve_car_name(&m, 5), "porsche911gt3");
    assert_eq!(resolve_car_name(&m, 6), "car_6");
}

#[test]
fn track_name_is_sanitized_display_name() {
    let m = Metadata {
        cars: vec![],
        tracks: vec![(
            "7".to_string(),
            TrackInfo {
                id: 7,
                display_name: "Spa: Endurance/Classic".to_string(),
                iracing_path: Some("ignored".to_string()),
            },
        )],
    };
    assert_eq!(resolve_track_name(&m, 7), "Spa_ Endurance_Classic");
    assert_eq!(resolve_track_name(&m, 8), "track_8");
}

#[test]
fn override_and_file_segments_are_sanitized() {
    let m = Metadata {
        cars: vec![(
            "5".to_string(),
            CarInfo {
                id: 5,
                display_name: "Car Five".to_string(),
                iracing_path: Some("gt3:cup/a".to_string()),
            },
        )],
        tracks: vec![],
    };
    assert_eq!(resolve_car_name(&m, 5), "gt3_cup_a");
    let f = file("x.sto", "Race: A/B.sto", 5, 9, "d", "s");
    assert_eq!(artifact_full_path(&m, &f), "setups/gt3_cup_a/track_9/Race_ A_B.sto");
}

#[test]
fn leading_zero_catalog_key_does_not_match_the_id() {
    let m = Metadata {
        cars: vec![(
            "05".to_string(),
            CarInfo { id: 5, display_name: "Car Five".to_string(), iracing_path: None },
        )],
        tracks: vec![],
    };
    assert_eq!(resolve_car_name(&m, 5), "car_5");
}

#[test]
fn dir_path_is_the_parent_of_the_full_path() {
    let m = sample_metadata();
    let f = file("x.sto", "Race.sto", 5, 7, "d", "s");
    assert_eq!(artifact_dir_path(&m, &f), "setups/Car Five/Spa");
    assert_eq!(artifact_full_path(&m, &f), "setups/Car Five/Spa/Race.sto");
}

#[test]
fn plan_downloads_skips_existing_paths() {
    let m = sample_metadata();
    let files = vec![
        file("a.sto", "A.sto", 5, 7, "p1", "s1"),
        file("b.sto", "B.sto", 5, 7, "p2", "s2"),
    ];
    let plan = plan_downloads(&m, &files, &vec![true, false]);
    assert_eq!(plan.len(), 1);
    assert_eq!(plan[0].file_name, "b.sto");
    assert_eq!(plan[0].display_name, "B.sto");
    assert_eq!(plan[0].datapack_id, "p2");
    assert_eq!(plan[0].session_id, "s2");
    assert_eq!(plan[0].dir_path, "setups/Car Five/Spa");
    assert_eq!(plan[0].full_path, "setups/Car Five/Spa/B.sto");
}

#[test]
fn plan_downloads_writes_a_duplicate_path_once() {
    let m = sample_metadata();
    // Same display name and resolution: both artifacts map to the same path.
    let files = vec![
        file("a.sto", "Same.sto", 5, 7, "p1", "s1"),
        file("a.sto", "Same.sto", 5, 7, "p1", "s1"),
    ];
    let plan = plan_downloads(&m, &files, &vec![false, false]);
    assert_eq!(plan.len(), 1);
}

#[test]
fn reconcile_twice_downloads_nothing_the_second_time() {
    let m = sample_metadata();
    let listing = vec![
        file("a.sto", "A.sto", 5, 7, "p1", "s1"),
        file("b.json", "B.json", 5, 7, "p2", "s2"),
        file("c.sto", "C.sto", 9, 11, "p3", "s3"),
        file("c.sto", "C.sto", 9, 11, "p3", "s3"),
    ];
    let wanted = filter_setup_files(&listing);

    // First run: nothing exists locally yet.
    let before: Vec<bool> = wanted.iter().map(|_| false).collect();
    let first = plan_downloads(&m, &wanted, &before);
    assert_eq!(first.len(), 2);

    // The application executes the plan; afterwards exactly the planned
    // paths exist.  No remote-side change: the second listing is the same.
    let after: Vec<bool> = wanted
        .iter()
        .map(|f| {
            let p = artifact_full_path(&m, f);
            first.iter().any(|it| it.full_path == p)
        })
        .collect();
    let second = plan_downloads(&m, &wanted, &after);
    assert_eq!(second.len(), 0);
}
