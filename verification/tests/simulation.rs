use std::path::PathBuf;

use hifitime::{Duration, Epoch};
use hyperdrive::beam::delays::Delays;
use hyperdrive::beam::ska::{RaDec, SkaBeamParams};
use hyperdrive::binary64::Binary64;
use hyperdrive::cli::channels::{coarse_channels, dedup, fine_channels};
use hyperdrive::cli::merge::{VisSimulateSkaArgs, VisSimulateSkaCliArgs};
use hyperdrive::cli::parse::{
    OutputVisArgs, Parsers, VisSimulateSkaError, VisSimulateSkaParams,
};
use hyperdrive::cli::vis_simulate_ska::{
    lst_and_latitude, ArrayPosition, Dut1, Filters, LatLngHeight, MiddleFreq, Numerics, ObsContext,
    PhaseCentre, PrecessionInfo, SimulationPlan, VisInputType, VisSimulateArgsError, XyzGeodetic,
    DEFAULT_FREQ_RES_KHZ_BITS, DEFAULT_TIME_RES_SECONDS_BITS, EPSILON_BITS, MAX_DEC_BITS, MAX_RA_BITS, MIN_DEC_BITS,
};
use vec1::Vec1;

fn b(v: f64) -> Binary64 {
    Binary64::from_bits(v.to_bits())
}

fn f(v: Binary64) -> f64 {
    f64::from_bits(v.bits)
}

type Args = VisSimulateSkaArgs<u8, u8, u8>;

fn args() -> VisSimulateSkaCliArgs {
    VisSimulateSkaCliArgs {
        measurement_set: Some(PathBuf::from("sim.ms")),
        ..Default::default()
    }
}

fn all_args(simulate_args: VisSimulateSkaCliArgs) -> Args {
    VisSimulateSkaArgs {
        args_file: None,
        beam_args: 1,
        modelling_args: 2,
        srclist_args: 3,
        simulate_args,
    }
}

fn context() -> ObsContext {
    ObsContext {
        phase_centre: RaDec {
            ra: b(0.1),
            dec: b(-0.4),
        },
        array_position: LatLngHeight {
            longitude_rad: b(2.0),
            latitude_rad: b(-0.46),
            height_metres: b(377.8),
        },
        input_data_type: VisInputType::MeasurementSet,
        tile_xyzs: (0..5).map(tile).collect(),
        tile_names: (0..5).map(|i| format!("S{i}")).collect(),
        timestamps: Vec1::try_from_vec((0..4).map(observed).collect()).unwrap(),
        dut1: Some(-100),
        dipole_delays: Some(Delays::Partial(vec![7; 16])),
        dipole_gains: Some(vec![vec![b(0.5); 32]; 5]),
        station_angles: Some(vec![b(0.5)]),
        feed_angles: None,
        feed_coordinates: Some(vec![vec![(b(1.0), b(2.0))]]),
        ecef_to_local_mats: Some(vec![[[b(0.0), b(1.0), b(2.0)]; 3]]),
    }
}

fn tile(i: u32) -> XyzGeodetic {
    XyzGeodetic {
        x: b(f64::from(i)),
        y: b(f64::from(2 * i)),
        z: b(1.0),
    }
}

fn observed(i: usize) -> Epoch {
    Epoch::from_gpst_seconds(1_000_000_000.0 + 10.0 * i as f64)
}

fn middle(middle: MiddleFreq) -> Binary64 {
    match middle {
        MiddleFreq::Megahertz(m) => b(f(m) * 1e6),
        MiddleFreq::ObservedMean => b(200e6),
    }
}

fn channel(middle: Binary64, freq_res: Binary64, num: usize, i: usize) -> Binary64 {
    let freq_res = f(freq_res) * 1e3;
    b(f(middle) - num as f64 / 2.0 * freq_res + freq_res * i as f64)
}

fn coarse(freq: Binary64) -> Binary64 {
    b((f(freq) / 1.28e6).round() * 1.28e6)
}

fn timestamp(first: Epoch, offset: Option<Binary64>, res: Binary64, i: usize) -> Epoch {
    first + Duration::from_seconds(offset.map_or(0.0, f) + f(res) * i as f64)
}

fn parse(args: VisSimulateSkaCliArgs) -> Result<SimulationPlan, VisSimulateArgsError> {
    args.plan(
        &context(),
        &Numerics {
            middle,
            channel,
            coarse,
            timestamp,
        },
    )
}

#[test]
fn limits() {
    assert_eq!(MAX_RA_BITS, 360.0_f64.to_bits());
    assert_eq!(MAX_DEC_BITS, 90.0_f64.to_bits());
    assert_eq!(MIN_DEC_BITS, (-90.0_f64).to_bits());
    assert_eq!(EPSILON_BITS, f64::EPSILON.to_bits());
    assert_eq!(DEFAULT_FREQ_RES_KHZ_BITS, 80.0_f64.to_bits());
    assert_eq!(DEFAULT_TIME_RES_SECONDS_BITS, 8.0_f64.to_bits());
}

#[test]
fn defaults() {
    let params = parse(args()).unwrap();
    assert_eq!(
        params.phase_centre,
        PhaseCentre::Observed(context().phase_centre)
    );
    assert_eq!(
        params.array_position,
        ArrayPosition::Observed(context().array_position)
    );
    assert_eq!(params.num_tiles, 5);
    assert_eq!(params.time_res, b(8.0));
    assert_eq!(params.num_timesteps, 14);
    assert_eq!(params.timestamps.len(), 14);
    assert_eq!(*params.timestamps.first(), observed(0));
    assert_eq!(
        *params.timestamps.last(),
        observed(0) + Duration::from_seconds(104.0)
    );
    assert_eq!(params.dut1, Dut1::Nanoseconds(-100));
    assert_eq!(params.freq_res, b(80.0));
    assert_eq!(params.middle_freq, b(200e6));
    assert_eq!(params.fine_chan_freqs.len(), 384);
    assert_eq!(*params.fine_chan_freqs.first(), b(200e6 - 192.0 * 80e3));
    assert_eq!(*params.fine_chan_freqs.last(), b(200e6 + 191.0 * 80e3));
    assert_eq!(params.coarse_chan_freqs.len(), 25);
    assert_eq!(params.coarse_chan_freqs[0], b(144.0 * 1.28e6));
    assert_eq!(params.coarse_chan_freqs[24], b(168.0 * 1.28e6));
    assert_eq!(params.filters, None);
}

#[test]
fn arguments_win_over_the_observation() {
    let params = parse(VisSimulateSkaCliArgs {
        ra: Some(b(360.0)),
        dec: Some(b(-90.0)),
        array_position: Some(vec![b(116.7), b(-26.7), b(100.0)]),
        dut1: Some(b(0.25)),
        num_fine_channels: Some(2),
        freq_res: Some(b(10.0)),
        middle_freq: Some(b(150.0)),
        filter_gaussians: true,
        ..args()
    })
    .unwrap();
    assert_eq!(
        params.phase_centre,
        PhaseCentre::Degrees {
            ra: b(360.0),
            dec: b(-90.0)
        }
    );
    assert_eq!(
        params.array_position,
        ArrayPosition::Degrees {
            longitude: b(116.7),
            latitude: b(-26.7),
            height_metres: b(100.0)
        }
    );
    assert_eq!(params.dut1, Dut1::Seconds(b(0.25)));
    assert_eq!(
        params.fine_chan_freqs.as_vec(),
        &vec![b(150e6 - 10e3), b(150e6)]
    );
    assert_eq!(params.coarse_chan_freqs, vec![b(117.0 * 1.28e6)]);
    assert_eq!(
        params.filters,
        Some(Filters {
            points: false,
            gaussians: true,
            shapelets: false
        })
    );
}

#[test]
fn dut1_can_be_ignored() {
    let params = parse(VisSimulateSkaCliArgs {
        dut1: Some(b(0.25)),
        ignore_dut1: true,
        ..args()
    })
    .unwrap();
    assert_eq!(params.dut1, Dut1::Nanoseconds(0));
}

#[test]
fn arguments_that_are_wrong() {
    for ra in [-0.1, 360.1, f64::NAN] {
        assert!(matches!(
            parse(VisSimulateSkaCliArgs {
                ra: Some(b(ra)),
                // The right ascension is looked at first.
                dec: Some(b(100.0)),
                ..args()
            }),
            Err(VisSimulateArgsError::RaInvalid)
        ));
    }
    for dec in [-90.1, 90.1, f64::NAN] {
        assert!(matches!(
            parse(VisSimulateSkaCliArgs {
                ra: Some(b(0.0)),
                dec: Some(b(dec)),
                array_position: Some(vec![]),
                ..args()
            }),
            Err(VisSimulateArgsError::DecInvalid)
        ));
    }
    for (ra, dec) in [(Some(b(1000.0)), None), (None, Some(b(1000.0)))] {
        assert!(matches!(
            parse(VisSimulateSkaCliArgs { ra, dec, ..args() }),
            Err(VisSimulateArgsError::OnlyOneRAOrDec)
        ));
    }
    match parse(VisSimulateSkaCliArgs {
        array_position: Some(vec![b(1.0), b(2.0)]),
        freq_res: Some(b(0.0)),
        ..args()
    }) {
        Err(VisSimulateArgsError::BadArrayPosition { pos }) => {
            assert_eq!(pos, vec![b(1.0), b(2.0)])
        }
        other => panic!("{other:?}"),
    }
    for freq_res in [0.0, -80.0, f64::EPSILON / 2.0] {
        assert!(matches!(
            parse(VisSimulateSkaCliArgs {
                freq_res: Some(b(freq_res)),
                num_fine_channels: Some(0),
                ..args()
            }),
            Err(VisSimulateArgsError::FineChansWidthTooSmall)
        ));
    }
    assert!(matches!(
        parse(VisSimulateSkaCliArgs {
            num_fine_channels: Some(0),
            freq_res: Some(b(f64::EPSILON)),
            ..args()
        }),
        Err(VisSimulateArgsError::FineChansZero)
    ));
}

#[test]
fn time_arguments() {
    // The arguments set the number of time steps and the time resolution.
    let plan = parse(VisSimulateSkaCliArgs {
        num_timesteps: Some(6),
        time_res: Some(b(2.0)),
        ..args()
    })
    .unwrap();
    assert_eq!(plan.num_timesteps, 6);
    assert_eq!(plan.time_res, b(2.0));
    assert_eq!(plan.timestamps.len(), 6);
    assert_eq!(*plan.timestamps.first(), observed(0));
    assert_eq!(plan.timestamps[3], observed(0) + Duration::from_seconds(6.0));

    let plan = parse(VisSimulateSkaCliArgs {
        num_timesteps: Some(3),
        ..args()
    })
    .unwrap();
    assert_eq!(plan.time_res, b(8.0));
    assert_eq!(plan.timestamps.len(), 3);
    assert_eq!(*plan.timestamps.last(), observed(0) + Duration::from_seconds(16.0));

    let plan = parse(VisSimulateSkaCliArgs {
        time_offset: Some(b(100.0)),
        ..args()
    })
    .unwrap();
    assert_eq!(plan.timestamps.len(), 14);
    assert_eq!(*plan.timestamps.first(), observed(10));

    assert!(matches!(
        parse(VisSimulateSkaCliArgs {
            num_timesteps: Some(0),
            ..args()
        }),
        Err(VisSimulateArgsError::ZeroTimeSteps)
    ));
    // Channels are looked at first.
    assert!(matches!(
        parse(VisSimulateSkaCliArgs {
            num_timesteps: Some(0),
            freq_res: Some(b(0.0)),
            ..args()
        }),
        Err(VisSimulateArgsError::FineChansWidthTooSmall)
    ));
    assert!(matches!(
        parse(VisSimulateSkaCliArgs {
            num_timesteps: Some(0),
            num_fine_channels: Some(0),
            ..args()
        }),
        Err(VisSimulateArgsError::FineChansZero)
    ));
}

type Params = VisSimulateSkaParams<u32, u8, String, usize>;

/// Run with parsers of which some fail.
fn run(
    args: Args,
    dry_run: bool,
    failing: &'static str,
    simulate: &dyn Fn(Params) -> Result<(), String>,
) -> Result<(), VisSimulateSkaError> {
    let fails = move |what: &str| -> Result<(), String> {
        if what == failing {
            Err(format!("no {what}"))
        } else {
            Ok(())
        }
    };
    let parsers = Parsers {
        precess: |centre: PhaseCentre, _: ArrayPosition, first: Epoch, dut1: Dut1| {
            assert_eq!(centre, PhaseCentre::Observed(context().phase_centre));
            assert_eq!(first, observed(0));
            assert_eq!(dut1, Dut1::Nanoseconds(-100));
            PrecessionInfo {
                lmst: b(1.0),
                lmst_j2000: b(2.0),
                array_latitude_j2000: b(3.0),
                array_latitude: b(4.0),
            }
        },
        modelling: |m: u8| (m == 99, m),
        beam: move |beam: u8,
                    num_tiles: usize,
                    delays: &Option<Delays>,
                    gains: &Option<Vec<Vec<Binary64>>>,
                    input: Option<VisInputType>,
                    ska: SkaBeamParams|
              -> Result<u32, String> {
            fails("beam")?;
            assert!(matches!(delays, Some(Delays::Partial(v)) if v == &vec![7; 16]));
            assert_eq!(gains, &context().dipole_gains);
            assert_eq!(input, Some(VisInputType::MeasurementSet));
            assert_eq!(ska.number_of_stations, 5);
            assert_eq!(ska.ecef_to_local_mats, context().ecef_to_local_mats);
            assert_eq!(num_tiles, 5);
            assert_eq!(ska.reference_frequency_hz, b(200e6));
            assert_eq!(ska.ska_site_latitude_rad, b(3.0));
            Ok(u32::from(beam) * 1000)
        },
        srclist: move |list: u8,
                       _: PhaseCentre,
                       lst: Binary64,
                       latitude: Binary64,
                       coarse: &Vec<Binary64>,
                       beam: &u32|
              -> Result<String, String> {
            fails("srclist")?;
            assert_eq!((lst, latitude), (b(2.0), b(3.0)));
            assert_eq!(coarse.len(), 25);
            Ok(format!("list {list} for beam {beam}"))
        },
        filter: |list: String, filters: Filters| format!("{list} without {filters:?}"),
        output: move |args: OutputVisArgs,
                      plan: &SimulationPlan,
                      write_autos: bool,
                      file: &str,
                      kind: &str|
              -> Result<usize, String> {
            fails("output")?;
            assert_eq!(args.output_vis_time_average, Some("8s".to_string()));
            assert_eq!(args.output_vis_freq_average, None);
            assert_eq!(args.outputs, None);
            assert!(!write_autos);
            assert_eq!((file, kind), ("hyp_model.uvfits", "simulated"));
            Ok(plan.timestamps.len())
        },
    };
    let numerics = Numerics {
        middle,
        channel,
        coarse,
        timestamp,
    };
    let simulate = |params: Params| simulate(params);
    args.run(context(), &numerics, &parsers, dry_run, &simulate)
}

fn run_args() -> VisSimulateSkaCliArgs {
    VisSimulateSkaCliArgs {
        output_model_time_average: Some("8s".to_string()),
        ..args()
    }
}

#[test]
fn all_arguments_are_made_sense_of() {
    let simulate = |p: Params| -> Result<(), String> {
        assert_eq!(p.plan.num_tiles, 5);
        assert_eq!(p.context.tile_names.len(), 5);
        assert_eq!(p.tile_xyzs, context().tile_xyzs);
        assert_eq!(p.tile_names, context().tile_names);
        assert!(p.flagged_tiles.is_empty());
        assert_eq!((p.lst_rad, p.latitude_rad), (b(2.0), b(3.0)));
        assert_eq!(p.beam, 1000);
        assert_eq!(p.modelling_params, 2);
        assert_eq!(p.source_list, "list 3 for beam 1000");
        assert_eq!(p.output_vis_params, 14);
        Ok(())
    };
    assert!(run(all_args(run_args()), false, "", &simulate).is_ok());

    let filtered = |p: Params| -> Result<(), String> {
        assert!(p.source_list.starts_with("list 3 for beam 1000 without"));
        Ok(())
    };
    let args = VisSimulateSkaCliArgs {
        filter_shapelets: true,
        ..run_args()
    };
    assert!(run(all_args(args), false, "", &filtered).is_ok());
}

#[test]
fn arguments_that_no_sense_can_be_made_of() {
    let simulate = |_: Params| -> Result<(), String> { unreachable!("nothing to simulate") };
    match run(all_args(run_args()), false, "beam", &simulate) {
        Err(VisSimulateSkaError::Beam(e)) => assert_eq!(e, "no beam"),
        other => panic!("{other:?}"),
    }
    match run(all_args(run_args()), false, "srclist", &simulate) {
        Err(VisSimulateSkaError::SourceList(e)) => assert_eq!(e, "no srclist"),
        other => panic!("{other:?}"),
    }
    match run(all_args(run_args()), true, "output", &simulate) {
        Err(VisSimulateSkaError::Output(e)) => assert_eq!(e, "no output"),
        other => panic!("{other:?}"),
    }
    let wrong = VisSimulateSkaCliArgs {
        num_fine_channels: Some(0),
        ..run_args()
    };
    assert!(matches!(
        run(all_args(wrong), true, "beam", &simulate),
        Err(VisSimulateSkaError::Args(
            VisSimulateArgsError::FineChansZero
        ))
    ));
}

#[test]
fn dry_runs_stop_early() {
    let fails = |_: Params| -> Result<(), String> { Err("no disk".to_string()) };
    assert!(run(all_args(run_args()), true, "", &fails).is_ok());
    match run(all_args(run_args()), false, "", &fails) {
        Err(VisSimulateSkaError::Simulation(e)) => assert_eq!(e, "no disk"),
        other => panic!("{other:?}"),
    }
}

#[test]
fn the_command_line_wins_over_the_file() {
    let cli = VisSimulateSkaCliArgs {
        ra: Some(b(1.0)),
        filter_points: true,
        output_model_time_average: Some("8s".to_string()),
        ..Default::default()
    };
    let file = VisSimulateSkaCliArgs {
        ra: Some(b(2.0)),
        dec: Some(b(3.0)),
        ignore_dut1: true,
        time_res: Some(b(4.0)),
        output_model_files: Some(vec![PathBuf::from("out.uvfits")]),
        ..args()
    };
    let merged = cli.merge(file);
    assert_eq!(merged.ra, Some(b(1.0)));
    assert_eq!(merged.dec, Some(b(3.0)));
    assert_eq!(merged.time_res, Some(b(4.0)));
    assert_eq!(merged.measurement_set, Some(PathBuf::from("sim.ms")));
    assert_eq!(
        merged.output_model_files,
        Some(vec![PathBuf::from("out.uvfits")])
    );
    assert_eq!(merged.output_model_time_average, Some("8s".to_string()));
    assert!(merged.ignore_dut1);
    assert!(merged.filter_points);
    assert!(!merged.filter_shapelets);
    assert_eq!(merged.num_timesteps, None);
}

#[test]
fn merging_with_nothing_changes_nothing() {
    let merged = args().merge(VisSimulateSkaCliArgs::default());
    assert_eq!(format!("{merged:?}"), format!("{:?}", args()));
    let merged = VisSimulateSkaCliArgs::default().merge(args());
    assert_eq!(format!("{merged:?}"), format!("{:?}", args()));
}

#[test]
fn argument_files() {
    let first = |a: u8, b: u8| if a == 0 { b } else { a };
    let read = |path: PathBuf| -> Result<Args, String> {
        if path == PathBuf::from("args.toml") {
            let mut file = all_args(args());
            file.args_file = Some(PathBuf::from("other.toml"));
            file.beam_args = 7;
            Ok(file)
        } else {
            Err("no such file".to_string())
        }
    };

    let mut cli = all_args(VisSimulateSkaCliArgs::default());
    cli.beam_args = 0;
    cli.args_file = Some(PathBuf::from("args.toml"));
    let merged = cli.merge(&read, &first, &first, &first).unwrap();
    assert_eq!(merged.args_file, None);
    assert_eq!(merged.beam_args, 7);
    assert_eq!(merged.modelling_args, 2);
    assert_eq!(
        merged.simulate_args.measurement_set,
        Some(PathBuf::from("sim.ms"))
    );

    let mut cli = all_args(VisSimulateSkaCliArgs::default());
    cli.args_file = Some(PathBuf::from("missing.toml"));
    assert_eq!(
        cli.merge(&read, &first, &first, &first).unwrap_err(),
        "no such file"
    );

    let cli = all_args(args());
    let merged = cli.merge(&read, &first, &first, &first).unwrap();
    assert_eq!(merged.beam_args, 1);
}

#[test]
fn repeats_are_removed() {
    assert_eq!(
        dedup(&vec![b(1.0), b(1.0), b(2.0), b(2.0), b(2.0), b(1.0)]),
        vec![b(1.0), b(2.0), b(1.0)]
    );
    assert_eq!(dedup(&vec![]), vec![]);
    // Zeros are equal whatever their sign; what is not a number equals nothing.
    assert_eq!(dedup(&vec![b(0.0), b(-0.0)]), vec![b(0.0)]);
    assert_eq!(dedup(&vec![b(f64::NAN), b(f64::NAN)]).len(), 2);
}

#[test]
fn channels() {
    let ten = |i: usize| b(10.0 * i as f64);
    let fine = fine_channels(4, &ten).unwrap();
    assert_eq!(fine.as_vec(), &vec![b(0.0), b(10.0), b(20.0), b(30.0)]);
    assert!(fine_channels(0, &ten).is_none());
    let tens = |v: Binary64| b((f(v) / 20.0).floor());
    assert_eq!(coarse_channels(&fine, &tens), vec![b(0.0), b(1.0)]);
}

#[test]
fn precession() {
    let info = PrecessionInfo {
        lmst: b(1.0),
        lmst_j2000: b(2.0),
        array_latitude_j2000: b(3.0),
        array_latitude: b(4.0),
    };
    assert_eq!(lst_and_latitude(false, info), (b(2.0), b(3.0)));
    assert_eq!(lst_and_latitude(true, info), (b(1.0), b(4.0)));
}

#[test]
fn beam_parameters_come_from_the_observation() {
    let params = context().ska_beam_params(b(-0.4), b(150e6));
    assert_eq!(params.phase_centre, context().phase_centre);
    assert_eq!(params.ska_site_latitude_rad, b(-0.4));
    assert_eq!(params.reference_frequency_hz, b(150e6));
    assert_eq!(params.number_of_stations, 5);
    assert_eq!(params.station_angle_rad, Some(vec![b(0.5)]));
    assert_eq!(params.feed_angle_rad, None);
    assert_eq!(
        params.feed_coordinates,
        Some(vec![vec![(b(1.0), b(2.0))]])
    );
}
