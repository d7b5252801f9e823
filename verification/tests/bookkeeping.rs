use box2d_lite_rs::collision::arbiter::{find_contact, warm_start_sources, ArbiterKey, FeaturePair};
use box2d_lite_rs::collision::collide::EdgeNumber;
use box2d_lite_rs::dynamics::world::{
    arbiter_action, bodies_two_mut, broad_phase_pairs, ArbiterAction, BodyHandle, JointHandle,
    WorldConfig,
};

fn key(a: usize, b: usize) -> ArbiterKey {
    ArbiterKey { body1: BodyHandle(a), body2: BodyHandle(b) }
}

fn feature(in2: EdgeNumber, out2: EdgeNumber) -> FeaturePair {
    FeaturePair::new(EdgeNumber::NoEdge, EdgeNumber::NoEdge, in2, out2)
}

#[test]
fn world_config_default_switches_everything_on() {
    let config = WorldConfig::default();
    assert!(config.accumulate_impulses);
    assert!(config.warm_starting);
    assert!(config.position_correction);
}

#[test]
fn handles_compare_by_index() {
    assert!(BodyHandle(1) < BodyHandle(2));
    assert_eq!(BodyHandle(3), BodyHandle(3));
    assert!(JointHandle(0) < JointHandle(9));
    assert_eq!(JointHandle(4).0, 4);
}

#[test]
fn two_mut_borrows_in_the_order_asked_for() {
    let mut bodies = vec![10.5f32, 20.5, 30.5, 40.5];
    {
        let (a, b) = bodies_two_mut(&mut bodies, BodyHandle(1), BodyHandle(3));
        assert_eq!(*a, 20.5);
        assert_eq!(*b, 40.5);
        *a += 1.0;
        *b -= 1.0;
    }
    assert_eq!(bodies, vec![10.5, 21.5, 30.5, 39.5]);
    {
        let (a, b) = bodies_two_mut(&mut bodies, BodyHandle(3), BodyHandle(1));
        assert_eq!(*a, 39.5);
        assert_eq!(*b, 21.5);
        *a = 1.0;
        *b = 2.0;
    }
    assert_eq!(bodies, vec![10.5, 2.0, 30.5, 1.0]);
}

#[test]
fn two_mut_reaches_the_first_and_the_last_element() {
    let mut bodies = vec![String::from("a"), String::from("b"), String::from("c")];
    let (last, first) = bodies_two_mut(&mut bodies, BodyHandle(2), BodyHandle(0));
    last.push('!');
    first.push('?');
    assert_eq!(bodies, vec!["a?", "b", "c!"]);
}

#[test]
fn two_mut_on_neighbours() {
    let mut bodies = vec![1u8, 2];
    let (a, b) = bodies_two_mut(&mut bodies, BodyHandle(0), BodyHandle(1));
    std::mem::swap(a, b);
    assert_eq!(bodies, vec![2, 1]);
}

#[test]
fn find_contact_gives_the_first_position_with_the_key() {
    let e12 = feature(EdgeNumber::Edge1, EdgeNumber::Edge2);
    let e23 = feature(EdgeNumber::Edge2, EdgeNumber::Edge3);
    let e34 = feature(EdgeNumber::Edge3, EdgeNumber::Edge4);
    assert_eq!(find_contact(&[e12, e23], e12), Some(0));
    assert_eq!(find_contact(&[e12, e23], e23), Some(1));
    assert_eq!(find_contact(&[e12, e23], e34), None);
    assert_eq!(find_contact(&[e23, e23], e23), Some(0));
    assert_eq!(find_contact(&[], e23), None);
}

#[test]
fn warm_starting_carries_impulses_over_from_the_matching_contact() {
    // One contact before, the same contact again: with warm starting it takes
    // over the impulses of contact 0, without it starts from zero.
    let fp = FeaturePair::new(
        EdgeNumber::Edge1,
        EdgeNumber::Edge2,
        EdgeNumber::Edge3,
        EdgeNumber::Edge4,
    );
    assert_eq!(warm_start_sources(&[fp], &[fp], true), vec![Some(0)]);
    assert_eq!(warm_start_sources(&[fp], &[fp], false), vec![None]);
}

#[test]
fn warm_starting_matches_by_feature_not_by_position() {
    let e12 = feature(EdgeNumber::Edge1, EdgeNumber::Edge2);
    let e23 = feature(EdgeNumber::Edge2, EdgeNumber::Edge3);
    let e34 = feature(EdgeNumber::Edge3, EdgeNumber::Edge4);
    assert_eq!(warm_start_sources(&[e12, e23], &[e23, e12], true), vec![Some(1), Some(0)]);
    assert_eq!(warm_start_sources(&[e12, e23], &[e34, e23], true), vec![None, Some(1)]);
    assert_eq!(warm_start_sources(&[e12, e23], &[e23, e12], false), vec![None, None]);
    assert_eq!(warm_start_sources(&[e12], &[e34, e23], true), vec![None, None]);
}

#[test]
fn warm_starting_with_an_empty_manifold_on_either_side() {
    let e12 = feature(EdgeNumber::Edge1, EdgeNumber::Edge2);
    assert_eq!(warm_start_sources(&[], &[e12], true), vec![None]);
    assert_eq!(warm_start_sources(&[e12], &[], true), vec![]);
    assert_eq!(warm_start_sources(&[], &[], false), vec![]);
}

#[test]
fn a_manifold_that_persists_matches_itself() {
    let e12 = feature(EdgeNumber::Edge1, EdgeNumber::Edge2);
    let e23 = feature(EdgeNumber::Edge2, EdgeNumber::Edge3);
    assert_eq!(warm_start_sources(&[e12, e23], &[e12, e23], true), vec![Some(0), Some(1)]);
}

#[test]
fn broad_phase_pairs_of_three_dynamic_bodies() {
    assert_eq!(
        broad_phase_pairs(&[false, false, false]),
        vec![key(0, 1), key(0, 2), key(1, 2)]
    );
}

#[test]
fn broad_phase_skips_pairs_of_static_bodies() {
    // Bodies 0 and 2 are static.
    assert_eq!(
        broad_phase_pairs(&[true, false, true, false]),
        vec![key(0, 1), key(0, 3), key(1, 2), key(1, 3), key(2, 3)]
    );
    assert_eq!(broad_phase_pairs(&[true, true, true]), vec![]);
    assert_eq!(broad_phase_pairs(&[true, true, false]), vec![key(0, 2), key(1, 2)]);
}

#[test]
fn broad_phase_needs_two_bodies() {
    assert_eq!(broad_phase_pairs(&[]), vec![]);
    assert_eq!(broad_phase_pairs(&[false]), vec![]);
    assert_eq!(broad_phase_pairs(&[false, true]), vec![key(0, 1)]);
}

#[test]
fn broad_phase_visits_every_pair_once_in_key_order() {
    let is_static = [false, true, true, false, false, true, false];
    let pairs = broad_phase_pairs(&is_static);
    let mut expected = Vec::new();
    for i in 0..is_static.len() {
        for j in (i + 1)..is_static.len() {
            if !(is_static[i] && is_static[j]) {
                expected.push(key(i, j));
            }
        }
    }
    assert_eq!(pairs, expected);
    let mut sorted = pairs.clone();
    sorted.sort();
    sorted.dedup();
    assert_eq!(sorted, pairs);
}

#[test]
fn arbiter_action_follows_the_contact_count() {
    assert_eq!(arbiter_action(1, false), ArbiterAction::Insert);
    assert_eq!(arbiter_action(2, false), ArbiterAction::Insert);
    assert_eq!(arbiter_action(1, true), ArbiterAction::Update);
    assert_eq!(arbiter_action(2, true), ArbiterAction::Update);
    assert_eq!(arbiter_action(0, true), ArbiterAction::Remove);
    assert_eq!(arbiter_action(0, false), ArbiterAction::Nothing);
}
