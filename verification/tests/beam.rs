use hyperdrive::beam::create::{check_delays, DEFAULT_SKA_REF_FREQ_BITS};
use hyperdrive::beam::layout::S8_1_MILLIMETRES;
use hyperdrive::beam::no_beam::identity;
use hyperdrive::beam::traits::Jones;
use hyperdrive::beam::{
    beam_types_comma_separated, create_beam_object, get_s8_1, select_beam_type, Beam, BeamError,
    BeamGpu, BeamObject, BeamType, DelayGrid, Delays, NoBeam, RaDec, SkaAiryBeam,
    SkaArrayFactorBeam, SkaBeamConfig, SkaBeamParams, SkaGaussianBeam,
};
use hyperdrive::binary64::Binary64;

fn b(v: f64) -> Binary64 {
    Binary64::from_bits(v.to_bits())
}

fn no_delays() -> Delays {
    Delays::Partial(vec![0; 16])
}

#[test]
fn names_of_beam_types() {
    for (t, name) in [
        (BeamType::FEE, "fee"),
        (BeamType::NoBeam, "none"),
        (BeamType::SkaGaussian, "ska_gaussian"),
        (BeamType::SkaAiry, "ska_airy"),
        (BeamType::SkaArrayFactor, "ska_array_factor"),
    ] {
        assert_eq!(t.to_string(), name);
        assert_eq!(BeamType::from_str(name), Some(t));
    }
    assert_eq!(BeamType::from_str("FEE"), None);
    assert_eq!(BeamType::from_str(""), None);
    assert_eq!(BeamType::default(), BeamType::SkaArrayFactor);
    assert_eq!(
        beam_types_comma_separated(),
        "fee, none, ska_gaussian, ska_airy, ska_array_factor"
    );
}

#[test]
fn beam_types_are_selected() {
    assert_eq!(
        select_beam_type(None).unwrap(),
        BeamType::SkaArrayFactor
    );
    assert_eq!(select_beam_type(Some("fee")).unwrap(), BeamType::FEE);
    match select_beam_type(Some("nope")) {
        Err(BeamError::Unrecognised(s)) => assert_eq!(s, "nope"),
        other => panic!("{other:?}"),
    }
}

#[test]
fn ideal_delays_of_one_tile() {
    let delays = Delays::parse((0..16).collect()).unwrap();
    assert_eq!(
        delays.get_ideal_delays(),
        [0, 1, 2, 3, 4, 5, 6, 7, 8, 9, 10, 11, 12, 13, 14, 15]
    );
    // The delays of X dipoles come before those of Y dipoles.
    let mut both: Vec<u32> = vec![3; 16];
    both.extend([5; 16]);
    assert_eq!(Delays::Partial(both).get_ideal_delays(), [5; 16]);
    assert_eq!(Delays::Partial(vec![]).get_ideal_delays(), [32; 16]);
}

#[test]
fn ideal_delays_of_many_tiles() {
    let mut values = vec![7; 48];
    values[0] = 32;
    values[17] = 32;
    values[34] = 0;
    let grid = DelayGrid::from_shape_vec(3, 16, values).unwrap();
    let mut delays = Delays::Full(grid);
    // The third tile isn't looked at, because the first two make up for each
    // other's dead dipoles.
    assert_eq!(delays.get_ideal_delays(), [7; 16]);
    delays.set_to_ideal_delays();
    match &delays {
        Delays::Full(grid) => {
            for tile in 0..3 {
                for dipole in 0..16 {
                    assert_eq!(grid.delay(tile, dipole), Some(7));
                }
            }
            assert_eq!(grid.delay(3, 0), None);
            assert_eq!(grid.delay(0, 16), None);
        }
        Delays::Partial(_) => unreachable!(),
    }
    assert_eq!(delays.get_ideal_delays(), [7; 16]);
}

#[test]
fn dead_in_all_tiles() {
    let mut values = vec![1; 32];
    values[5] = 32;
    values[21] = 32;
    let mut expected = [1; 16];
    expected[5] = 32;
    let delays = Delays::Full(DelayGrid::from_shape_vec(2, 16, values).unwrap());
    assert_eq!(delays.get_ideal_delays(), expected);
}

#[test]
fn partial_delays_stay_as_they_are() {
    let mut delays = Delays::Partial(vec![32; 16]);
    delays.set_to_ideal_delays();
    match delays {
        Delays::Partial(v) => assert_eq!(v, vec![32; 16]),
        Delays::Full(_) => unreachable!(),
    }
}

#[test]
fn delays_that_cannot_be_parsed() {
    assert!(matches!(
        Delays::parse(vec![0; 15]),
        Err(BeamError::BadDelays)
    ));
    assert!(matches!(
        Delays::parse(vec![0; 32]),
        Err(BeamError::BadDelays)
    ));
    assert!(matches!(
        Delays::parse(vec![33; 16]),
        Err(BeamError::BadDelays)
    ));
    assert!(Delays::parse(vec![32; 16]).is_ok());
}

#[test]
fn grids_of_the_wrong_size() {
    assert!(DelayGrid::from_shape_vec(2, 16, vec![0; 31]).is_none());
    assert!(DelayGrid::from_shape_vec(usize::MAX, 2, vec![]).is_none());
    assert!(DelayGrid::from_shape_vec(0, 16, vec![]).is_some());
    // Rows lie one after another.
    let grid = DelayGrid::from_shape_vec(2, 3, (0..6).collect()).unwrap();
    assert_eq!(grid.delay(1, 0), Some(3));
    assert_eq!(grid.delay(0, 2), Some(2));
}

#[test]
fn delays_are_checked() {
    assert!(check_delays(&no_delays(), 5).is_ok());
    assert!(matches!(
        check_delays(&Delays::Partial(vec![0; 17]), 5),
        Err(BeamError::BadDelays)
    ));
    let full = |rows: usize, columns: usize, value: u32| {
        Delays::Full(
            DelayGrid::from_shape_vec(rows, columns, vec![value; rows * columns]).unwrap(),
        )
    };
    assert!(check_delays(&full(5, 16, 32), 5).is_ok());
    assert!(matches!(
        check_delays(&full(5, 16, 33), 5),
        Err(BeamError::BadDelays)
    ));
    assert!(matches!(
        check_delays(&full(5, 32, 0), 5),
        Err(BeamError::BadDelays)
    ));
    assert!(matches!(
        check_delays(&full(4, 16, 0), 5),
        Err(BeamError::InconsistentDelays {
            num_rows: 4,
            num_tiles: 5
        })
    ));
}

#[test]
fn beam_objects() {
    match create_beam_object(Some("none"), 4, no_delays()) {
        Ok(BeamObject::NoBeam(beam)) => {
            assert_eq!(beam.get_num_tiles(), 4);
            assert_eq!(Beam::get_beam_type(&beam), BeamType::NoBeam);
        }
        _ => unreachable!(),
    }
    match create_beam_object(Some("fee"), 4, no_delays()) {
        Ok(BeamObject::Fee { num_tiles, delays }) => {
            assert_eq!(num_tiles, 4);
            assert_eq!(delays.get_ideal_delays(), [0; 16]);
        }
        _ => unreachable!(),
    }
    match create_beam_object(Some("ska_gaussian"), 4, no_delays()) {
        Ok(BeamObject::SkaGaussian(beam)) => {
            assert_eq!(beam.get_num_tiles(), 4);
            assert_eq!(beam.config.ref_freq_hz, b(100e6));
        }
        _ => unreachable!(),
    }
    match create_beam_object(Some("ska_airy"), 4, no_delays()) {
        Ok(BeamObject::SkaAiry(beam)) => {
            assert_eq!(beam.get_num_tiles(), 4);
            assert_eq!(beam.reference_frequency_hz, b(100e6));
            assert_eq!(beam.rotations(None), None);
        }
        _ => unreachable!(),
    }
    for name in [None, Some("ska_array_factor")] {
        match create_beam_object(name, 4, no_delays()) {
            Ok(BeamObject::SkaArrayFactor(beam)) => {
                assert_eq!(beam.get_num_tiles(), 4);
                assert_eq!(beam.reference_frequency_hz, b(100e6));
                assert_eq!(beam.station_angle_rad, vec![b(0.0)]);
                assert_eq!(beam.feed_angle_rad, vec![b(0.0); 256]);
                assert_eq!(beam.feed_coordinates, vec![get_s8_1()]);
                let gpu = beam.prepare_gpu_beam(&[100]);
                assert_eq!(gpu.get_tile_map(), Some(&vec![0; 4]));
                assert_eq!(gpu.get_num_unique_tiles(), 1);
            }
            _ => unreachable!(),
        }
    }
    assert_eq!(DEFAULT_SKA_REF_FREQ_BITS, 100e6_f64.to_bits());
}

#[test]
fn beam_objects_that_cannot_be_created() {
    assert!(matches!(
        create_beam_object(Some("fee"), 4, Delays::Partial(vec![])),
        Err(BeamError::BadDelays)
    ));
    match create_beam_object(Some("analytic"), 4, no_delays()) {
        Err(BeamError::Unrecognised(s)) => assert_eq!(s, "analytic"),
        _ => unreachable!(),
    }
    // Only the FEE beam looks at the delays.
    assert!(create_beam_object(Some("none"), 4, Delays::Partial(vec![])).is_ok());
}

#[test]
fn element_layout() {
    let elements = get_s8_1();
    assert_eq!(elements.len(), 256);
    assert_eq!(elements[0], (b(-15.36), b(-5.266)));
    assert_eq!(elements[10], (b(-12.514), b(-9.296)));
    assert_eq!(elements[255], (b(-14.016), b(-3.589)));
    for (element, (east, north)) in elements.iter().zip(S8_1_MILLIMETRES) {
        assert_eq!(element.0, b(f64::from(east) / 1000.0));
        assert_eq!(element.1, b(f64::from(north) / 1000.0));
    }
}

#[test]
fn no_beam_has_no_effect() {
    let beam = NoBeam { num_tiles: 3 };
    let expected: Jones = [
        b(1.0),
        b(0.0),
        b(0.0),
        b(0.0),
        b(0.0),
        b(0.0),
        b(1.0),
        b(0.0),
    ];
    assert_eq!(identity(), expected);
    assert_eq!(beam.calc_jones(), expected);
    assert_eq!(beam.calc_jones_array(2), vec![expected; 2]);
    let mut results = vec![[b(3.0); 8]; 4];
    beam.calc_jones_array_inner(&mut results);
    assert_eq!(results, vec![expected; 4]);
    assert_eq!(beam.find_closest_freq(b(150e6)), b(150e6));
    assert!(beam.get_dipole_delays().is_none());
    assert!(beam.get_ideal_dipole_delays().is_none());
    assert!(beam.get_dipole_gains().is_none());
    assert!(beam.get_beam_file().is_none());

    let gpu = beam.prepare_gpu_beam(&[150_000_000, 160_000_000]);
    assert_eq!(gpu.get_tile_map(), Some(&vec![0, 0, 0]));
    assert_eq!(gpu.get_freq_map(), Some(&vec![0, 0]));
    assert_eq!(gpu.get_num_unique_tiles(), 1);
    assert_eq!(gpu.get_num_unique_freqs(), 1);
    assert_eq!(gpu.calc_jones_pair(3), vec![expected; 3]);
}

fn params() -> SkaBeamParams {
    SkaBeamParams {
        phase_centre: RaDec {
            ra: b(0.1),
            dec: b(-0.5),
        },
        ska_site_latitude_rad: b(-0.46),
        reference_frequency_hz: b(106e6),
        number_of_stations: 2,
        station_angle_rad: Some(vec![b(0.2), b(0.3)]),
        feed_angle_rad: Some(vec![b(0.4), b(0.5)]),
        feed_coordinates: Some(vec![vec![(b(1.0), b(2.0))], vec![]]),
        ecef_to_local_mats: None,
    }
}

#[test]
fn gaussian_beams() {
    let config = SkaBeamConfig::new(
        7,
        RaDec {
            ra: b(0.0),
            dec: b(1.0),
        },
        b(106e6),
        b(-0.46),
    );
    let beam = SkaGaussianBeam::new(config);
    assert_eq!(beam.config, config);
    assert_eq!(beam.get_num_tiles(), 7);
    assert_eq!(Beam::get_beam_type(&beam), BeamType::SkaGaussian);
    match beam.calc_jones_pair() {
        Err(BeamError::Unrecognised(s)) => {
            assert_eq!(s, "GPU not supported for SKA Gaussian beam")
        }
        other => panic!("{other:?}"),
    }
    assert_eq!(beam.get_tile_map(), None);
    assert_eq!(beam.get_num_unique_tiles(), 0);
}

#[test]
fn airy_beams() {
    let beam = SkaAiryBeam::new(params());
    assert_eq!(beam.get_num_tiles(), 2);
    assert_eq!(beam.rotations(Some(1)), Some((b(0.3), b(0.5))));
    assert_eq!(beam.rotations(None), None);

    let gpu = beam.prepare_gpu_beam(&[100, 200, 300]);
    assert_eq!(gpu.get_tile_map(), Some(&vec![0, 0]));
    assert_eq!(gpu.get_freq_map(), Some(&vec![0, 1, 2]));
    assert_eq!(gpu.get_num_unique_tiles(), 1);
    assert_eq!(gpu.get_num_unique_freqs(), 3);
    assert_eq!(BeamGpu::get_beam_type(&gpu), BeamType::SkaAiry);

    let respond = |tile: Option<usize>, freq: u32, direction: usize| -> Jones {
        assert_eq!(tile, None);
        [Binary64::from_bits(u64::from(freq) + direction as u64); 8]
    };
    let grid = gpu.calc_jones_pair(2, &respond);
    assert_eq!(grid.shape(), (3, 2));
    assert_eq!(grid.get(1, 1).unwrap()[0].bits, 201);
    assert_eq!(grid.get(2, 0).unwrap()[7].bits, 300);
    assert_eq!(grid.get(3, 0), None);
    assert_eq!(grid.get(0, 2), None);
    let ordered: Vec<u64> = grid.ordered().iter().map(|jones| jones[0].bits).collect();
    assert_eq!(ordered, vec![100, 101, 200, 201, 300, 301]);
}

#[test]
fn array_factor_beams() {
    let beam = SkaArrayFactorBeam::new(params());
    assert_eq!(beam.get_num_tiles(), 2);
    assert_eq!(Beam::get_beam_type(&beam), BeamType::SkaArrayFactor);
    let (feed_angle, elements) = beam.station(Some(0));
    assert_eq!(feed_angle, b(0.4));
    assert_eq!(elements, &vec![(b(1.0), b(2.0))]);

    let gpu = beam.prepare_gpu_beam(&[100, 200]);
    assert_eq!(gpu.get_tile_map(), Some(&vec![0, 0]));
    assert_eq!(gpu.get_freq_map(), Some(&vec![0, 1]));
    assert_eq!(gpu.get_num_unique_tiles(), 2);
    assert_eq!(gpu.get_num_unique_freqs(), 2);
    let respond = |tile: Option<usize>, freq: u32, direction: usize| -> Jones {
        let (_, elements) = beam.station(tile);
        let value = 1000 * elements.len() + 10 * freq as usize + direction;
        [Binary64::from_bits(value as u64); 8]
    };
    // Ordered tile, frequency, direction.
    let responses: Vec<u64> = gpu
        .calc_jones_pair(3, &respond)
        .iter()
        .map(|jones| jones[0].bits)
        .collect();
    assert_eq!(
        responses,
        vec![2000, 2001, 2002, 3000, 3001, 3002, 1000, 1001, 1002, 2000, 2001, 2002]
    );
    assert_eq!(gpu.cpu_object.feed_coordinates, beam.feed_coordinates);
}

#[test]
fn copies_of_delays() {
    let grid = DelayGrid::from_shape_vec(2, 3, (0..6).collect()).unwrap();
    let mut copy = Delays::Full(grid.clone());
    match copy.clone() {
        Delays::Full(a) => {
            for r in 0..3 {
                for c in 0..4 {
                    assert_eq!(a.delay(r, c), grid.delay(r, c));
                }
            }
            assert_eq!(a.delay(1, 2), Some(5));
        }
        Delays::Partial(_) => unreachable!(),
    }

    // A copy is not changed along.
    copy = Delays::Full(
        DelayGrid::from_shape_vec(2, 16, [vec![32; 16], vec![6; 16]].concat()).unwrap(),
    );
    let before = copy.clone();
    copy.set_to_ideal_delays();
    match (before, copy) {
        (Delays::Full(a), Delays::Full(c)) => {
            assert_eq!(a.delay(0, 0), Some(32));
            assert_eq!(c.delay(0, 0), Some(6));
        }
        _ => unreachable!(),
    }

    match Delays::Partial(vec![1, 2]).clone() {
        Delays::Partial(v) => assert_eq!(v, vec![1, 2]),
        Delays::Full(_) => unreachable!(),
    }
}
