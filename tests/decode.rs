use airinfo::{pods_from_payloads, split_u8_to_u4_array, Device, Model, Pod, PacketNibble};

fn nibbles(set: &[(usize, u8)]) -> PacketNibble {
    let mut raw = [0u8; 54];
    for &(k, v) in set {
        raw[k] = v;
    }
    raw
}

fn scenario_a() -> PacketNibble {
    nibbles(&[
        (6, 0),
        (7, 2),
        (8, 2),
        (9, 0),
        (10, 0x2),
        (11, 0xA),
        (12, 3),
        (13, 5),
        (14, 0x3),
        (15, 7),
    ])
}

fn model_from(ids: [u8; 4]) -> Model {
    let raw = nibbles(&[(6, ids[0]), (7, ids[1]), (8, ids[2]), (9, ids[3])]);
    Model::parse(&raw)
}

fn is_single(m: Model) -> bool {
    matches!(
        m,
        Model::AirPodsMax
            | Model::BeatsX
            | Model::BeatsFlex
            | Model::BeatsSolo3
            | Model::BeatsStudio3
            | Model::Powerbeats3
    )
}

/// A small deterministic generator for sampled payloads.
fn next(state: &mut u64) -> u64 {
    *state = state.wrapping_mul(6364136223846793005).wrapping_add(1442695040888963407);
    *state >> 33
}

fn sample_payload(state: &mut u64) -> [u8; 27] {
    let mut p = [0u8; 27];
    for b in p.iter_mut() {
        *b = next(state) as u8;
    }
    p
}

#[test]
fn split_known_bytes() {
    let mut p = [0u8; 27];
    p[0] = 0xAB;
    p[1] = 0x0F;
    p[26] = 0x70;
    let n = split_u8_to_u4_array(&p);
    assert_eq!(&n[0..4], &[0xA, 0xB, 0x0, 0xF]);
    assert_eq!(&n[52..54], &[0x7, 0x0]);
}

#[test]
fn split_round_trip() {
    let mut state: u64 = 1;
    for _ in 0..500 {
        let p = sample_payload(&mut state);
        let n = split_u8_to_u4_array(&p);
        for i in 0..27 {
            assert!(n[2 * i] < 16 && n[2 * i + 1] < 16);
            assert_eq!(n[2 * i] * 16 + n[2 * i + 1], p[i]);
        }
    }
}

#[test]
fn decode_sampled_payloads() {
    let mut state: u64 = 7;
    let payloads: Vec<[u8; 27]> = (0..2000).map(|_| sample_payload(&mut state)).collect();
    let pods = pods_from_payloads(&payloads);
    assert_eq!(pods.len(), payloads.len());
    for (p, pod) in payloads.iter().zip(pods.iter()) {
        assert_eq!(*pod, Pod::parse(&split_u8_to_u4_array(p)));
        for d in [pod.left, pod.right, pod.case].iter().flatten() {
            assert!(d.battery <= 140 && d.battery % 10 == 0);
        }
        if is_single(pod.model) {
            assert_eq!(pod.right, pod.left);
            assert_eq!(pod.case, None);
        }
    }
}

#[test]
fn decode_no_payloads() {
    assert!(pods_from_payloads(&Vec::new()).is_empty());
}

#[test]
fn scenario_a_two_earpieces() {
    let pod = Pod::parse(&scenario_a());
    assert_eq!(pod.model, Model::AirPods1);
    assert_eq!(pod.left, Some(Device { battery: 50, charging: true, on_ear: Some(true) }));
    assert_eq!(pod.right, Some(Device { battery: 30, charging: true, on_ear: Some(true) }));
    assert_eq!(pod.case, Some(Device { battery: 70, charging: false, on_ear: None }));
}

#[test]
fn scenario_b_swapped() {
    let mut raw = scenario_a();
    raw[10] = 0x0;
    let pod = Pod::parse(&raw);
    assert_eq!(pod.model, Model::AirPods1);
    assert_eq!(pod.left, Some(Device { battery: 30, charging: true, on_ear: Some(true) }));
    assert_eq!(pod.right, Some(Device { battery: 50, charging: true, on_ear: Some(true) }));
    assert_eq!(pod.case, Some(Device { battery: 70, charging: false, on_ear: None }));
}

#[test]
fn scenario_c_disconnected_left() {
    let mut raw = scenario_a();
    raw[13] = 0xF;
    let pod = Pod::parse(&raw);
    assert_eq!(pod.left, None);
    assert_eq!(pod.right, Some(Device { battery: 30, charging: true, on_ear: Some(true) }));
    assert_eq!(pod.case, Some(Device { battery: 70, charging: false, on_ear: None }));
}

#[test]
fn scenario_d_single_collapse() {
    let mut raw = scenario_a();
    raw[7] = 5;
    raw[12] = 9;
    raw[14] = 0x7;
    raw[15] = 8;
    let pod = Pod::parse(&raw);
    assert_eq!(pod.model, Model::BeatsX);
    assert_eq!(pod.left, Some(Device { battery: 50, charging: true, on_ear: Some(true) }));
    assert_eq!(pod.right, pod.left);
    assert_eq!(pod.case, None);
}

#[test]
fn single_collapse_keeps_absent_left() {
    let mut raw = scenario_a();
    raw[7] = 0xA;
    raw[13] = 0xF;
    let pod = Pod::parse(&raw);
    assert_eq!(pod.model, Model::AirPodsMax);
    assert_eq!(pod.left, None);
    assert_eq!(pod.right, None);
    assert_eq!(pod.case, None);
}

#[test]
fn disconnected_after_swap() {
    let mut raw = scenario_a();
    raw[10] = 0x0;
    raw[12] = 0xF;
    let pod = Pod::parse(&raw);
    assert_eq!(pod.left, None);
    assert_eq!(pod.right, Some(Device { battery: 50, charging: true, on_ear: Some(true) }));
}

#[test]
fn disconnected_right_and_case() {
    let mut raw = scenario_a();
    raw[12] = 0xF;
    raw[15] = 0xF;
    let pod = Pod::parse(&raw);
    assert_eq!(pod.left, Some(Device { battery: 50, charging: true, on_ear: Some(true) }));
    assert_eq!(pod.right, None);
    assert_eq!(pod.case, None);
}

#[test]
fn battery_extremes() {
    let mut raw = scenario_a();
    raw[13] = 0;
    raw[12] = 10;
    raw[15] = 14;
    let pod = Pod::parse(&raw);
    assert_eq!(pod.left.unwrap().battery, 0);
    assert_eq!(pod.right.unwrap().battery, 100);
    assert_eq!(pod.case.unwrap().battery, 140);
}

#[test]
fn charge_and_worn_bits() {
    let mut raw = scenario_a();
    raw[14] = 0x4;
    raw[11] = 0x2;
    let pod = Pod::parse(&raw);
    assert_eq!(pod.left, Some(Device { battery: 50, charging: false, on_ear: Some(true) }));
    assert_eq!(pod.right, Some(Device { battery: 30, charging: false, on_ear: Some(false) }));
    assert_eq!(pod.case, Some(Device { battery: 70, charging: true, on_ear: None }));
    raw[14] = 0x2;
    raw[11] = 0x8;
    let pod = Pod::parse(&raw);
    assert_eq!(pod.left, Some(Device { battery: 50, charging: false, on_ear: Some(false) }));
    assert_eq!(pod.right, Some(Device { battery: 30, charging: true, on_ear: Some(true) }));
    assert_eq!(pod.case, Some(Device { battery: 70, charging: false, on_ear: None }));
}

#[test]
fn model_lookup_table() {
    assert_eq!(model_from([0x0, 0x2, 0x2, 0x0]), Model::AirPods1);
    assert_eq!(model_from([0x0, 0xF, 0x2, 0x0]), Model::AirPods2);
    assert_eq!(model_from([0x1, 0x3, 0x2, 0x0]), Model::AirPods3);
    assert_eq!(model_from([0x0, 0xE, 0x2, 0x0]), Model::AirPodsPro);
    assert_eq!(model_from([0x1, 0x4, 0x2, 0x0]), Model::AirPodsPro2);
    assert_eq!(model_from([0x2, 0x4, 0x2, 0x0]), Model::AirPodsPro2Usbc);
    assert_eq!(model_from([0x0, 0xA, 0x2, 0x0]), Model::AirPodsMax);
    assert_eq!(model_from([0x0, 0xB, 0x2, 0x0]), Model::PowerbeatsPro);
    assert_eq!(model_from([0x0, 0x5, 0x2, 0x0]), Model::BeatsX);
    assert_eq!(model_from([0x1, 0x0, 0x2, 0x0]), Model::BeatsFlex);
    assert_eq!(model_from([0x0, 0x6, 0x2, 0x0]), Model::BeatsSolo3);
    assert_eq!(model_from([0x0, 0x9, 0x2, 0x0]), Model::BeatsStudio3);
    assert_eq!(model_from([0x0, 0x3, 0x2, 0x0]), Model::Powerbeats3);
    assert_eq!(model_from([0x0, 0x0, 0x0, 0x0]), Model::Unknown);
    assert_eq!(model_from([0xF, 0xF, 0xF, 0xF]), Model::Unknown);
}

#[test]
fn model_single_nibble_matches_any_rest() {
    assert_eq!(model_from([0x7, 0xA, 0x3, 0x1]), Model::AirPodsMax);
    assert_eq!(model_from([0x3, 0xB, 0x0, 0xC]), Model::PowerbeatsPro);
    assert_eq!(model_from([0x5, 0x9, 0x9, 0x9]), Model::BeatsStudio3);
    assert_eq!(model_from([0x1, 0x5, 0x2, 0x0]), Model::Unknown);
    assert_eq!(model_from([0x0, 0x2, 0x2, 0x1]), Model::Unknown);
}

#[test]
fn decode_from_bytes() {
    let mut p = [0u8; 27];
    p[3] = 0x02;
    p[4] = 0x20;
    p[5] = 0x2A;
    p[6] = 0x35;
    p[7] = 0x37;
    let pods = pods_from_payloads(&vec![p]);
    assert_eq!(pods.len(), 1);
    assert_eq!(pods[0], Pod::parse(&scenario_a()));
    assert_eq!(pods[0].model, Model::AirPods1);
}
