use granne_registry::registry::{
    granne_add, granne_build, granne_clone_index, granne_dimension, granne_element_count,
    granne_load, granne_new_index, granne_save, granne_search, Registry, SaveOutcome,
};

fn bits(v: &[f32]) -> Vec<u32> {
    v.iter().map(|x| x.to_bits()).collect()
}

#[test]
fn granne_test() {
    let mut reg = Registry::new();
    granne_new_index(&mut reg, "test");
    let buf: Vec<f32> = vec![1.0, 1.0, 1.0, 1.0, 1.0, 1.0, 1.0, 1.0];
    let buf2: Vec<f32> = vec![2.0, 2.0, 2.0, 2.0, 1.0, 1.0, 1.0, 1.0];
    let buf3: Vec<f32> = vec![0.0, 0.0, 0.0, 0.0, 1.0, 1.0, 1.0, 1.0];
    granne_add(&mut reg, "test", &bits(&buf));
    granne_add(&mut reg, "test", &bits(&buf2));
    granne_add(&mut reg, "test", &bits(&buf3));
    println!("Added nodes");
    granne_build(&mut reg, "test");
    println!("Built\n");
    let result = granne_search(&reg, "test", 10, &bits(&buf2));
    for x in result {
        println!("{} {}", x.index, f32::from_bits(x.score_bits));
    }
}

#[test]
fn additive_counting() {
    let mut reg = Registry::new();
    granne_new_index(&mut reg, "counts");
    let v = bits(&[1.0, 2.0, 3.0]);
    for expected in 1..=10usize {
        let count = granne_add(&mut reg, "counts", &v);
        assert_eq!(count, expected);
    }
}

#[test]
fn unknown_name_is_silent() {
    let mut reg = Registry::new();
    let v = bits(&[1.0, 2.0]);
    assert_eq!(granne_add(&mut reg, "never", &v), 0);
    granne_build(&mut reg, "never");
    let r = granne_search(&reg, "never", 5, &v);
    assert!(r.is_empty());
    assert!(matches!(granne_save(&reg, "never"), SaveOutcome::NotFound));
    assert!(!granne_clone_index(&mut reg, "never", "copy"));
}

#[test]
fn id_stability() {
    let mut reg = Registry::new();
    granne_new_index(&mut reg, "ids");
    granne_add(&mut reg, "ids", &bits(&[1.0, 0.0, 0.0, 0.0]));
    granne_add(&mut reg, "ids", &bits(&[0.0, 1.0, 0.0, 0.0]));
    granne_add(&mut reg, "ids", &bits(&[0.0, 0.0, 1.0, 0.0]));
    granne_build(&mut reg, "ids");
    for query in [[1.0f32, 0.0, 0.0, 0.0], [0.0, 0.0, 0.5, 0.5]] {
        let r = granne_search(&reg, "ids", 3, &bits(&query));
        let mut ids: Vec<usize> = r.iter().map(|x| x.index).collect();
        ids.sort();
        assert_eq!(ids, vec![0, 1, 2]);
    }
}

#[test]
fn round_trip() {
    let mut reg = Registry::new();
    granne_new_index(&mut reg, "orig");
    granne_add(&mut reg, "orig", &bits(&[1.0, 1.0, 1.0, 1.0]));
    granne_add(&mut reg, "orig", &bits(&[2.0, 2.0, 1.0, 1.0]));
    granne_add(&mut reg, "orig", &bits(&[0.0, 0.0, 1.0, 1.0]));
    granne_build(&mut reg, "orig");
    let (ib, eb) = match granne_save(&reg, "orig") {
        SaveOutcome::Saved(ib, eb) => (ib, eb),
        _ => panic!("save must produce the two streams"),
    };
    assert!(granne_load(&mut reg, "copy", &ib, &eb));
    let q = bits(&[2.0, 2.0, 1.0, 1.0]);
    let a = granne_search(&reg, "orig", 3, &q);
    let b = granne_search(&reg, "copy", 3, &q);
    assert_eq!(a.len(), b.len());
    for (x, y) in a.iter().zip(b.iter()) {
        assert_eq!(x.index, y.index);
        let dx = f32::from_bits(x.score_bits) - f32::from_bits(y.score_bits);
        assert!(dx.abs() < 1e-6);
    }
}

#[test]
fn clone_under_new_name() {
    let mut reg = Registry::new();
    granne_new_index(&mut reg, "one");
    granne_add(&mut reg, "one", &bits(&[1.0, 0.0]));
    granne_add(&mut reg, "one", &bits(&[0.0, 1.0]));
    granne_build(&mut reg, "one");
    assert!(granne_clone_index(&mut reg, "one", "two"));
    let r = granne_search(&reg, "two", 2, &bits(&[1.0, 0.0]));
    assert_eq!(r.len(), 2);
}

#[test]
fn k_truncation() {
    let mut reg = Registry::new();
    granne_new_index(&mut reg, "trunc");
    granne_add(&mut reg, "trunc", &bits(&[1.0, 0.0, 0.0]));
    granne_add(&mut reg, "trunc", &bits(&[0.0, 1.0, 0.0]));
    granne_add(&mut reg, "trunc", &bits(&[0.0, 0.0, 1.0]));
    granne_build(&mut reg, "trunc");
    let q = bits(&[1.0, 1.0, 1.0]);
    assert_eq!(granne_search(&reg, "trunc", 2, &q).len(), 2);
    assert!(granne_search(&reg, "trunc", 10, &q).len() <= 3);
}

#[test]
fn replacement_discards_prior_entry() {
    let mut reg = Registry::new();
    granne_new_index(&mut reg, "re");
    granne_add(&mut reg, "re", &bits(&[1.0, 2.0]));
    granne_build(&mut reg, "re");
    assert_eq!(granne_search(&reg, "re", 1, &bits(&[1.0, 2.0])).len(), 1);
    granne_new_index(&mut reg, "re");
    assert!(granne_search(&reg, "re", 1, &bits(&[1.0, 2.0])).is_empty());
    let count = granne_add(&mut reg, "re", &bits(&[3.0, 4.0]));
    assert_eq!(count, 1);
    granne_build(&mut reg, "re");
    assert_eq!(granne_search(&reg, "re", 1, &bits(&[3.0, 4.0])).len(), 1);
}

#[test]
fn concrete_scenario() {
    let mut reg = Registry::new();
    granne_new_index(&mut reg, "scene");
    granne_add(&mut reg, "scene", &bits(&[1.0, 1.0, 1.0, 1.0, 1.0, 1.0, 1.0, 1.0]));
    granne_add(&mut reg, "scene", &bits(&[2.0, 2.0, 2.0, 2.0, 1.0, 1.0, 1.0, 1.0]));
    granne_add(&mut reg, "scene", &bits(&[0.0, 0.0, 0.0, 0.0, 1.0, 1.0, 1.0, 1.0]));
    granne_build(&mut reg, "scene");
    let q = bits(&[2.0, 2.0, 2.0, 2.0, 1.0, 1.0, 1.0, 1.0]);
    let r = granne_search(&reg, "scene", 3, &q);
    assert_eq!(r.len(), 3);
    assert_eq!(r[0].index, 1);
    let best = f32::from_bits(r[0].score_bits);
    for x in r.iter() {
        assert!(best <= f32::from_bits(x.score_bits));
    }
    let mut ids: Vec<usize> = r.iter().map(|x| x.index).collect();
    ids.sort();
    assert_eq!(ids, vec![0, 1, 2]);
}

#[test]
fn save_known_name_yields_streams() {
    let mut reg = Registry::new();
    granne_new_index(&mut reg, "kept");
    assert!(matches!(granne_save(&reg, "kept"), SaveOutcome::Saved(_, _)));
    granne_add(&mut reg, "kept", &bits(&[1.0, 2.0]));
    granne_build(&mut reg, "kept");
    assert!(matches!(granne_save(&reg, "kept"), SaveOutcome::Saved(_, _)));
}

#[test]
fn clone_refuses_empty_source() {
    let mut reg = Registry::new();
    granne_new_index(&mut reg, "empty");
    assert!(!granne_clone_index(&mut reg, "empty", "copy"));
    assert!(granne_search(&reg, "copy", 1, &bits(&[1.0])).is_empty());
}

#[test]
fn element_count_tracks_adds() {
    let mut reg = Registry::new();
    assert_eq!(granne_element_count(&reg, "tally"), 0);
    granne_new_index(&mut reg, "tally");
    assert_eq!(granne_element_count(&reg, "tally"), 0);
    granne_add(&mut reg, "tally", &bits(&[1.0, 2.0]));
    granne_add(&mut reg, "tally", &bits(&[3.0, 4.0]));
    assert_eq!(granne_element_count(&reg, "tally"), 2);
}

#[test]
fn dimension_follows_first_vector() {
    let mut reg = Registry::new();
    assert_eq!(granne_dimension(&reg, "dims"), 0);
    granne_new_index(&mut reg, "dims");
    assert_eq!(granne_dimension(&reg, "dims"), 0);
    granne_add(&mut reg, "dims", &bits(&[1.0, 2.0, 3.0]));
    assert_eq!(granne_dimension(&reg, "dims"), 3);
}

#[test]
fn search_before_build_is_empty() {
    let mut reg = Registry::new();
    granne_new_index(&mut reg, "fresh");
    granne_add(&mut reg, "fresh", &bits(&[1.0, 2.0]));
    let r = granne_search(&reg, "fresh", 5, &bits(&[1.0, 2.0]));
    assert!(r.is_empty());
}
