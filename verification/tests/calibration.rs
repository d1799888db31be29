use std::collections::HashSet;

use hifitime::Epoch;
use hyperdrive::beam::no_beam::identity;
use hyperdrive::binary64::Binary64;
use hyperdrive::params::cal_vis::CalVis;
use hyperdrive::params::cubes::VisJones;
use hyperdrive::params::di_calibration::{DiCalParams, OutputVisParams};
use hyperdrive::params::error::{insufficient_memory_message, DiCalibrateError};
use hyperdrive::params::input::{
    keep_unflagged, num_cross_baselines, Chanblock, InputVisParams, Polarisations,
};
use hyperdrive::params::memory::{allocate, combine_arrays};
use hyperdrive::params::model_frame::{ModelFrame, WeightFrame};
use hyperdrive::params::sharding::{assemble, use_baseline_shards};
use hyperdrive::params::solutions::{PrecisionGrid, SolutionCube};
use hyperdrive::params::threads::{
    ModelEvent, ModelLoop, ModelStep, ReadEvent, ReadLoop, ReadStep, ThreadResults,
};
use hyperdrive::params::timeblock::Timeblock;
use vec1::Vec1;

fn b(v: f64) -> Binary64 {
    Binary64::from_bits(v.to_bits())
}

fn product(weight: u32, baseline_weight: Binary64) -> Binary64 {
    b(f64::from(f32::from_bits(weight)) * f64::from_bits(baseline_weight.bits))
}

fn scale(vis: VisJones, weight: Binary64) -> VisJones {
    vis.map(|v| ((f64::from(f32::from_bits(v)) * f64::from_bits(weight.bits)) as f32).to_bits())
}

fn vis(v: f32) -> VisJones {
    [v.to_bits(); 8]
}

fn fine() -> ThreadResults {
    ThreadResults {
        read: Ok(()),
        model: Ok(()),
        write: Ok(()),
    }
}

fn timeblock(index: usize, start: usize, end: usize) -> Timeblock {
    Timeblock {
        index,
        range: start..end,
        timestamps: (start..end)
            .map(|i| Epoch::from_gpst_seconds(i as f64))
            .collect(),
        timesteps: (start..end).collect(),
        median: Epoch::from_gpst_seconds((start + end) as f64 / 2.0),
    }
}

/// Three unflagged tiles out of four, two channels, and four timesteps in two
/// calibration timeblocks.
fn params(output_model_vis_params: Option<OutputVisParams>) -> DiCalParams {
    DiCalParams {
        input_vis_params: InputVisParams {
            timeblocks: Vec1::try_from_vec((0..4).map(|i| timeblock(i, i, i + 1)).collect())
                .unwrap(),
            chanblocks: vec![Chanblock { freq: b(150e6) }, Chanblock { freq: b(160e6) }],
            num_tiles: 4,
            flagged_tiles: HashSet::from([1]),
            using_autos: true,
            polarisations: Polarisations::XxYy,
        },
        cal_timeblocks: Vec1::try_from_vec(vec![timeblock(0, 0, 3), timeblock(1, 3, 4)]).unwrap(),
        baseline_weights: Vec1::try_from_vec(vec![b(1.0), b(0.0), b(2.0)]).unwrap(),
        max_iterations: 50,
        stop_threshold: b(1e-8),
        min_threshold: b(1e-4),
        output_model_vis_params,
    }
}

/// Data 3, model 5 and weight 0.5 everywhere.
fn fill(mut cal_vis: CalVis) -> CalVis {
    let (timesteps, channels, baselines) = cal_vis.vis_data.shape();
    for t in 0..timesteps {
        for c in 0..channels {
            for i in 0..baselines {
                assert!(cal_vis.vis_data.set(t, c, i, vis(3.0)));
                assert!(cal_vis.vis_model.set(t, c, i, vis(5.0)));
                assert!(cal_vis.vis_weights.set(t, c, i, 0.5_f32.to_bits()));
            }
        }
    }
    cal_vis
}

#[test]
fn arrays_of_zeros() {
    let mut cal_vis = allocate((2, 3, 4)).unwrap();
    assert_eq!(cal_vis.vis_data.shape(), (2, 3, 4));
    assert_eq!(cal_vis.vis_model.shape(), (2, 3, 4));
    assert_eq!(cal_vis.vis_weights.shape(), (2, 3, 4));
    assert_eq!(cal_vis.vis_data.get(1, 2, 3), Some(vis(0.0)));
    assert_eq!(cal_vis.vis_model.get(0, 0, 0), Some(vis(0.0)));
    assert_eq!(cal_vis.vis_weights.get(1, 0, 3), Some(0));
    assert_eq!(cal_vis.vis_data.get(2, 0, 0), None);
    assert_eq!(cal_vis.vis_weights.get(0, 3, 0), None);
    assert!(!cal_vis.vis_data.set(0, 0, 4, vis(1.0)));
    assert!(cal_vis.vis_data.set(0, 1, 2, vis(1.0)));
    assert_eq!(cal_vis.vis_data.get(0, 1, 2), Some(vis(1.0)));
    assert_eq!(cal_vis.vis_data.get(0, 2, 1), Some(vis(0.0)));
    assert!(allocate((0, 3, 4)).is_ok());
}

#[test]
fn not_enough_memory() {
    // 2^50 cells take more than there is.
    match allocate((1 << 20, 1 << 15, 1 << 15)) {
        Err(DiCalibrateError::InsufficientMemory { need_bytes }) => {
            assert_eq!(need_bytes, (1 << 50) * 68)
        }
        other => panic!("{other:?}"),
    }
    let cal_vis = allocate((1, 1, 1)).unwrap();
    match combine_arrays((1, 1, 10), Some(cal_vis.vis_data), None, None) {
        Err(e) => assert_eq!(
            e.message(),
            "Insufficient memory available to perform calibration; need 680 B of memory.\n\
             You could try using fewer timesteps and channels."
        ),
        Ok(_) => unreachable!(),
    }
}

#[test]
fn error_messages() {
    let e = DiCalibrateError::InsufficientMemory {
        need_bytes: 1_500_000,
    };
    assert_eq!(
        e.message(),
        "Insufficient memory available to perform calibration; need 1.43 MiB of memory.\n\
         You could try using fewer timesteps and channels."
    );
    assert_eq!(e.message(), insufficient_memory_message("1.43 MiB"));
    for e in [
        DiCalibrateError::SolutionsRead("why".to_string()),
        DiCalibrateError::SolutionsWrite("why".to_string()),
        DiCalibrateError::Model("why".to_string()),
        DiCalibrateError::VisRead("why".to_string()),
        DiCalibrateError::VisWrite("why".to_string()),
        DiCalibrateError::Fitsio("why".to_string()),
        DiCalibrateError::IO("why".to_string()),
    ] {
        assert_eq!(e.message(), "why");
    }
}

#[test]
fn visibilities_are_weighted() {
    let mut cal_vis = fill(allocate((2, 1, 3)).unwrap());
    assert!(cal_vis.vis_weights.set(1, 0, 0, (-1.0_f32).to_bits()));
    cal_vis.scale_by_weights(Some(&vec![b(1.0), b(0.0), b(2.0)]), &product, &scale);
    assert_eq!(cal_vis.vis_data.get(0, 0, 0), Some(vis(1.5)));
    assert_eq!(cal_vis.vis_model.get(0, 0, 0), Some(vis(2.5)));
    // Weights of 0 and below flag visibilities.
    assert_eq!(cal_vis.vis_data.get(0, 0, 1), Some(vis(0.0)));
    assert_eq!(cal_vis.vis_model.get(0, 0, 1), Some(vis(0.0)));
    assert_eq!(cal_vis.vis_data.get(1, 0, 0), Some(vis(0.0)));
    assert_eq!(cal_vis.vis_data.get(1, 0, 2), Some(vis(3.0)));
    assert_eq!(cal_vis.vis_model.get(1, 0, 2), Some(vis(5.0)));
    assert_eq!(cal_vis.vis_weights.get(1, 0, 2), Some(0.5_f32.to_bits()));
}

#[test]
fn visibilities_are_weighted_without_baseline_weights() {
    let mut cal_vis = fill(allocate((1, 1, 2)).unwrap());
    cal_vis.scale_by_weights(None, &product, &scale);
    assert_eq!(cal_vis.vis_data.get(0, 0, 0), Some(vis(1.5)));
    assert_eq!(cal_vis.vis_model.get(0, 0, 1), Some(vis(2.5)));
}

#[test]
fn unflagged_tiles() {
    let flagged = HashSet::from([0, 2, 9]);
    assert_eq!(keep_unflagged(&[10, 11, 12, 13], &flagged), vec![11, 13]);
    assert_eq!(params(None).input_vis_params.get_num_unflagged_tiles(), 3);
    assert_eq!(num_cross_baselines(0), 0);
    assert_eq!(num_cross_baselines(1), 0);
    assert_eq!(num_cross_baselines(128), 8128);
}

#[test]
fn autos_are_modelled_when_written() {
    assert!(!params(None).using_autos());
    assert!(!params(Some(OutputVisParams {
        output_autos: false
    }))
    .using_autos());
    let mut p = params(Some(OutputVisParams { output_autos: true }));
    assert!(p.using_autos());
    p.input_vis_params.using_autos = false;
    assert!(!p.using_autos());
}

#[test]
fn loading_all_timeblocks() {
    let p = params(Some(OutputVisParams { output_autos: true }));
    let load = |cal_vis: CalVis, start: usize, end: usize, autos: bool| {
        assert_eq!((start, end, autos), (0, 4, true));
        (fill(cal_vis), fine())
    };
    let cal_vis = p.get_cal_vis(&load, &product, &scale).unwrap();
    assert_eq!(cal_vis.vis_data.shape(), (4, 2, 3));
    assert_eq!(cal_vis.pols, Polarisations::XxYy);
    assert_eq!(cal_vis.vis_data.get(3, 1, 0), Some(vis(1.5)));
    assert_eq!(cal_vis.vis_data.get(3, 1, 1), Some(vis(0.0)));
    assert_eq!(cal_vis.vis_model.get(3, 1, 2), Some(vis(5.0)));
}

#[test]
fn loading_a_range() {
    let p = params(None);
    let load = |cal_vis: CalVis, start: usize, end: usize, autos: bool| {
        assert_eq!((start, end, autos), (1, 3, false));
        (fill(cal_vis), fine())
    };
    let cal_vis = p
        .get_cal_vis_for_input_range(1..3, &load, &product, &scale)
        .unwrap();
    assert_eq!(cal_vis.vis_data.shape(), (2, 2, 3));
}

#[test]
fn loading_nothing() {
    let p = params(None);
    let load = |_: CalVis, _: usize, _: usize, _: bool| -> (CalVis, ThreadResults) {
        unreachable!("nothing to load")
    };
    assert!(matches!(
        p.get_cal_vis_for_input_range(2..2, &load, &product, &scale),
        Err(DiCalibrateError::InsufficientMemory { need_bytes: 0 })
    ));
}

#[test]
fn errors_of_threads() {
    let failed = |e: &str| -> Result<(), String> { Err(e.to_string()) };
    let p = params(None);
    let load = |cal_vis: CalVis, _: usize, _: usize, _: bool| {
        (
            cal_vis,
            ThreadResults {
                read: Ok(()),
                model: failed("model"),
                write: failed("write"),
            },
        )
    };
    match p.get_cal_vis(&load, &product, &scale) {
        Err(DiCalibrateError::Model(e)) => assert_eq!(e, "model"),
        other => panic!("{other:?}"),
    }
    assert!(fine().join().is_ok());
    assert!(matches!(
        ThreadResults {
            read: failed("read"),
            model: failed("model"),
            write: failed("write"),
        }
        .join(),
        Err(DiCalibrateError::VisRead(_))
    ));
    assert!(matches!(
        ThreadResults {
            read: Ok(()),
            model: Ok(()),
            write: failed("write"),
        }
        .join(),
        Err(DiCalibrateError::VisWrite(_))
    ));
}

/// Solutions and precisions that tell how many timesteps were calibrated, and
/// the order of the timeblock among those that were given.
fn calibrate(
    cal_vis: &CalVis,
    timeblocks: &Vec1<Timeblock>,
    chanblocks: &Vec<Chanblock>,
    max_iterations: u32,
    stop_threshold: Binary64,
    min_threshold: Binary64,
) -> (SolutionCube, PrecisionGrid) {
    assert_eq!(cal_vis.pols, Polarisations::XxYy);
    assert_eq!(chanblocks[1].freq, b(160e6));
    assert_eq!(max_iterations, 50);
    assert_eq!(stop_threshold, b(1e-8));
    assert_eq!(min_threshold, b(1e-4));
    let timesteps = cal_vis.vis_data.shape().0;
    let mut solutions = SolutionCube::identities((timeblocks.len(), 3, 2));
    let mut precisions = vec![];
    for (i, timeblock) in timeblocks.iter().enumerate() {
        assert_eq!(timeblock.index, i);
        assert!(timeblock.range.end <= timesteps);
        for tile in 0..3 {
            for chanblock in 0..2 {
                let value = [b((10 * timesteps + i) as f64); 8];
                assert!(solutions.set(i, tile, chanblock, value));
            }
        }
        precisions.push(b(timesteps as f64));
        precisions.push(b(timeblock.timesteps[0] as f64));
    }
    (
        solutions,
        PrecisionGrid::from_shape_vec(timeblocks.len(), 2, precisions).unwrap(),
    )
}

#[test]
fn timeblocks_are_streamed() {
    let p = params(None);
    let load = |cal_vis: CalVis, start: usize, end: usize, _: bool| {
        assert!((start, end) == (0, 3) || (start, end) == (3, 4));
        (fill(cal_vis), fine())
    };
    let (incomplete, precisions) = p.run(&load, &product, &scale, &calibrate).unwrap();
    assert_eq!(incomplete.di_jones.shape(), (2, 3, 2));
    assert_eq!(incomplete.di_jones.get(0, 2, 1), Some([b(30.0); 8]));
    assert_eq!(incomplete.di_jones.get(1, 2, 1), Some([b(10.0); 8]));
    assert_eq!(incomplete.di_jones.get(2, 0, 0), None);
    assert_eq!(incomplete.timeblocks.len(), 2);
    assert_eq!(incomplete.chanblocks.len(), 2);
    assert_eq!(incomplete.max_iterations, 50);
    assert_eq!(precisions.get(0, 0), Some(b(3.0)));
    assert_eq!(precisions.get(0, 1), Some(b(0.0)));
    assert_eq!(precisions.get(1, 0), Some(b(1.0)));
    assert_eq!(precisions.get(1, 1), Some(b(3.0)));
    assert_eq!(precisions.get(1, 2), None);
}

#[test]
fn solutions_are_at_the_indices_of_the_timeblocks() {
    let mut p = params(None);
    p.cal_timeblocks =
        Vec1::try_from_vec(vec![timeblock(2, 0, 3), timeblock(0, 3, 4), timeblock(2, 0, 2)])
            .unwrap();
    let load = |cal_vis: CalVis, _: usize, _: usize, _: bool| (fill(cal_vis), fine());
    let (incomplete, precisions) = p.run(&load, &product, &scale, &calibrate).unwrap();
    assert_eq!(incomplete.di_jones.get(0, 0, 0), Some([b(10.0); 8]));
    // No timeblock has this index.
    assert_eq!(incomplete.di_jones.get(1, 0, 0), Some(identity()));
    // The last one wins.
    assert_eq!(incomplete.di_jones.get(2, 0, 0), Some([b(20.0); 8]));
    assert_eq!(precisions.get(0, 0), Some(b(3.0)));
    assert_eq!(precisions.get(2, 0), Some(b(2.0)));
}

#[test]
fn timeblocks_are_calibrated_at_once_when_the_model_is_written() {
    let p = params(Some(OutputVisParams {
        output_autos: false,
    }));
    let load = |cal_vis: CalVis, start: usize, end: usize, _: bool| {
        assert_eq!((start, end), (0, 4));
        (fill(cal_vis), fine())
    };
    let (incomplete, precisions) = p.run(&load, &product, &scale, &calibrate).unwrap();
    assert_eq!(incomplete.di_jones.get(0, 0, 0), Some([b(40.0); 8]));
    assert_eq!(incomplete.di_jones.get(1, 0, 0), Some([b(41.0); 8]));
    assert_eq!(precisions.get(1, 1), Some(b(3.0)));
}

#[test]
fn streaming_stops_at_the_first_error() {
    let p = params(None);
    let load = |cal_vis: CalVis, start: usize, _: usize, _: bool| {
        let mut results = fine();
        if start == 3 {
            results.read = Err("gone".to_string());
        }
        (cal_vis, results)
    };
    match p.run(&load, &product, &scale, &calibrate) {
        Err(DiCalibrateError::VisRead(e)) => assert_eq!(e, "gone"),
        other => panic!("{other:?}"),
    }
}

#[test]
fn precision_grids() {
    assert!(PrecisionGrid::from_shape_vec(2, 2, vec![b(0.0); 3]).is_none());
    let grid = PrecisionGrid::from_shape_vec(2, 2, vec![b(1.0), b(2.0), b(3.0), b(4.0)]).unwrap();
    assert_eq!(grid.get(0, 1), Some(b(2.0)));
    assert_eq!(grid.get(1, 0), Some(b(3.0)));
    assert_eq!(grid.get(2, 0), None);
}

#[test]
fn when_baselines_are_shared_out() {
    assert!(use_baseline_shards(true, 10, &[0, 1]));
    assert!(!use_baseline_shards(false, 10, &[0, 1]));
    assert!(!use_baseline_shards(true, 10, &[0]));
    assert!(!use_baseline_shards(true, 1, &[0, 1]));
    assert!(!use_baseline_shards(true, 0, &[0, 1]));
}

#[test]
fn shards_make_the_whole() {
    let whole = |c: usize, i: usize| vis((100 * c + i) as f32);
    let shards = hyperdrive::gpu::partition_baselines_across_devices(11, &[0, 1, 2]);
    let pieces: Vec<(usize, ModelFrame)> = shards
        .iter()
        .map(|&(_, offset, count)| {
            let mut piece = ModelFrame::blank((2, count));
            for c in 0..2 {
                for i in 0..count {
                    assert!(piece.set(c, i, whole(c, offset + i)));
                }
            }
            (offset, piece)
        })
        .collect();
    let mut frame = ModelFrame::blank((2, 11));
    assert_eq!(frame.get(1, 10), Some(vis(0.0)));
    assemble(&mut frame, &pieces);
    assert_eq!(frame.shape(), (2, 11));
    for c in 0..2 {
        for i in 0..11 {
            assert_eq!(frame.get(c, i), Some(whole(c, i)));
        }
    }
    assert_eq!(frame.get(2, 0), None);
    assert!(!frame.set(0, 11, vis(0.0)));
}

#[test]
fn pieces_leave_the_rest_alone() {
    let mut frame = ModelFrame::blank((1, 4));
    for i in 0..4 {
        assert!(frame.set(0, i, vis(1.0)));
    }
    let pieces = vec![(1, ModelFrame::blank((1, 2)))];
    assemble(&mut frame, &pieces);
    assert_eq!(frame.get(0, 0), Some(vis(1.0)));
    assert_eq!(frame.get(0, 1), Some(vis(0.0)));
    assert_eq!(frame.get(0, 2), Some(vis(0.0)));
    assert_eq!(frame.get(0, 3), Some(vis(1.0)));
}

#[test]
fn models_are_sent_in_order() {
    for model_autos in [false, true] {
        let work = ModelLoop {
            num_timesteps: 3,
            model_autos,
        };
        let mut sent = vec![];
        let mut modelled = vec![];
        let mut step = work.start();
        loop {
            let event = match &step {
                ModelStep::Cross { timestep } => {
                    modelled.push((*timestep, false));
                    ModelEvent::Modelled
                }
                ModelStep::Autos { timestep } => {
                    modelled.push((*timestep, true));
                    ModelEvent::Modelled
                }
                ModelStep::Check { .. } => ModelEvent::Checked { issue: false },
                ModelStep::Send { timestep } => {
                    assert!(modelled.contains(&(*timestep, false)));
                    assert_eq!(modelled.contains(&(*timestep, true)), model_autos);
                    sent.push(*timestep);
                    ModelEvent::Sent { taken: true }
                }
                ModelStep::Finished => break,
                other => panic!("{other:?}"),
            };
            step = work.next(step, event);
        }
        assert_eq!(sent, vec![0, 1, 2]);
    }
}

#[test]
fn modelling_stops_early() {
    let work = ModelLoop {
        num_timesteps: 2,
        model_autos: true,
    };
    let failed = |step| {
        work.next(
            step,
            ModelEvent::NotModelled {
                error: "no sources".to_string(),
            },
        )
    };
    for step in [
        ModelStep::Cross { timestep: 1 },
        ModelStep::Autos { timestep: 0 },
    ] {
        match failed(step) {
            ModelStep::Failed { error } => assert_eq!(error, "no sources"),
            other => panic!("{other:?}"),
        }
    }
    assert!(matches!(
        work.next(
            ModelStep::Check { timestep: 0 },
            ModelEvent::Checked { issue: true }
        ),
        ModelStep::Abandoned
    ));
    assert!(matches!(
        work.next(
            ModelStep::Send { timestep: 0 },
            ModelEvent::Sent { taken: false }
        ),
        ModelStep::Abandoned
    ));
    let nothing = ModelLoop {
        num_timesteps: 0,
        model_autos: false,
    };
    assert!(matches!(nothing.start(), ModelStep::Finished));
}

/// Read all timesteps, unless something happens at one of them. Says which were
/// read, and what the thread reports.
fn read_all(
    num_timesteps: usize,
    issue_at: Option<usize>,
    error_at: Option<usize>,
) -> (Vec<usize>, Result<(), String>) {
    let work = ReadLoop { num_timesteps };
    let mut read = vec![];
    let mut step = work.start();
    loop {
        if let Some(outcome) = step.outcome() {
            return (read, outcome);
        }
        let event = match &step {
            ReadStep::Read { timestep } if error_at == Some(*timestep) => ReadEvent::NotRead {
                error: "eof".to_string(),
            },
            ReadStep::Read { timestep } => {
                read.push(*timestep);
                ReadEvent::Read
            }
            ReadStep::Check { timestep } => ReadEvent::Checked {
                issue: issue_at == Some(*timestep),
            },
            other => panic!("{other:?}"),
        };
        step = work.next(step, event);
    }
}

#[test]
fn undisturbed_reading_reads_everything() {
    assert_eq!(read_all(3, None, None), (vec![0, 1, 2], Ok(())));
    assert_eq!(read_all(0, None, None), (vec![], Ok(())));
}

#[test]
fn reading_stops_early() {
    assert_eq!(read_all(3, Some(1), None), (vec![0, 1], Ok(())));
    assert_eq!(
        read_all(3, None, Some(1)),
        (vec![0], Err("eof".to_string()))
    );
    assert!(matches!(
        ReadLoop { num_timesteps: 3 }.next(
            ReadStep::Check { timestep: 1 },
            ReadEvent::Checked { issue: true }
        ),
        ReadStep::Abandoned
    ));
}

#[test]
fn what_modelling_reports() {
    assert_eq!(ModelStep::Finished.outcome(), Some(Ok(())));
    assert_eq!(ModelStep::Abandoned.outcome(), Some(Ok(())));
    let failed = ModelStep::Failed {
        error: "no sources".to_string(),
    };
    assert_eq!(failed.outcome(), Some(Err("no sources".to_string())));
    assert_eq!(ModelStep::Check { timestep: 0 }.outcome(), None);
}

#[test]
fn timeblocks_by_themselves() {
    let local = timeblock(5, 3, 7).local(4);
    assert_eq!(local.index, 0);
    assert_eq!(local.range, 0..4);
    assert_eq!(local.timesteps, vec![3, 4, 5, 6]);
    assert_eq!(local.timestamps, timeblock(5, 3, 7).timestamps);
    assert_eq!(local.median, timeblock(5, 3, 7).median);
}

#[test]
fn no_baseline_weights_are_weights_of_one() {
    let mut x = fill(allocate((2, 2, 3)).unwrap());
    let mut y = fill(allocate((2, 2, 3)).unwrap());
    x.scale_by_weights(None, &product, &scale);
    y.scale_by_weights(Some(&vec![b(1.0); 3]), &product, &scale);
    for t in 0..2 {
        for c in 0..2 {
            for i in 0..3 {
                assert_eq!(x.vis_data.get(t, c, i), y.vis_data.get(t, c, i));
                assert_eq!(x.vis_model.get(t, c, i), y.vis_model.get(t, c, i));
            }
        }
    }
    assert_eq!(x.pols, Polarisations::default());
}

/// Data that tell their timeblock.
fn fill_by_timeblock(mut cal_vis: CalVis, start: usize) -> CalVis {
    let (timesteps, channels, baselines) = cal_vis.vis_data.shape();
    for t in 0..timesteps {
        for c in 0..channels {
            for i in 0..baselines {
                let value = (100 * (start + t) + 10 * c + i) as f32;
                assert!(cal_vis.vis_data.set(t, c, i, vis(value)));
                assert!(cal_vis.vis_model.set(t, c, i, vis(-value)));
                assert!(cal_vis.vis_weights.set(t, c, i, 1.0_f32.to_bits()));
            }
        }
    }
    cal_vis
}

#[test]
fn a_range_is_part_of_all() {
    let p = params(None);
    let load = |cal_vis: CalVis, start: usize, _: usize, _: bool| {
        (fill_by_timeblock(cal_vis, start), fine())
    };
    let all = p.get_cal_vis(&load, &product, &scale).unwrap();
    let part = p
        .get_cal_vis_for_input_range(1..3, &load, &product, &scale)
        .unwrap();
    assert_eq!(part.pols, all.pols);
    for t in 0..2 {
        for c in 0..2 {
            for i in 0..3 {
                assert_eq!(part.vis_data.get(t, c, i), all.vis_data.get(t + 1, c, i));
                assert_eq!(part.vis_model.get(t, c, i), all.vis_model.get(t + 1, c, i));
                assert_eq!(part.vis_weights.get(t, c, i), all.vis_weights.get(t + 1, c, i));
            }
        }
    }
}

#[test]
fn streamed_solutions_depend_on_their_own_data() {
    let p = params(None);
    let calibrate = |cal_vis: &CalVis,
                     timeblocks: &Vec1<Timeblock>,
                     _: &Vec<Chanblock>,
                     _: u32,
                     _: Binary64,
                     _: Binary64| {
        let mut solutions = SolutionCube::identities((timeblocks.len(), 3, 2));
        let value = cal_vis.vis_data.get(0, 1, 2).unwrap()[0];
        solutions.set(0, 0, 0, [Binary64::from_bits(u64::from(value)); 8]);
        let precisions = vec![Binary64::from_bits(u64::from(value)); 2 * timeblocks.len()];
        (
            solutions,
            PrecisionGrid::from_shape_vec(timeblocks.len(), 2, precisions).unwrap(),
        )
    };
    let load = |cal_vis: CalVis, start: usize, _: usize, _: bool| {
        (fill_by_timeblock(cal_vis, start), fine())
    };
    // Different data, but not for the second timeblock.
    let other = |cal_vis: CalVis, start: usize, _: usize, _: bool| {
        let start = if start == 3 { 3 } else { start + 50 };
        (fill_by_timeblock(cal_vis, start), fine())
    };
    let (x, px) = p.run(&load, &product, &scale, &calibrate).unwrap();
    let (y, py) = p.run(&other, &product, &scale, &calibrate).unwrap();
    assert_ne!(x.di_jones.get(0, 0, 0), y.di_jones.get(0, 0, 0));
    assert_eq!(x.di_jones.get(1, 0, 0), y.di_jones.get(1, 0, 0));
    assert_eq!(px.get(1, 0), py.get(1, 0));
}

#[test]
fn when_calibration_can_be_performed() {
    assert!(params(None).is_runnable());
    let mut p = params(None);
    p.baseline_weights = Vec1::new(b(1.0));
    assert!(!p.is_runnable());
    let mut p = params(None);
    p.cal_timeblocks = Vec1::try_from_vec(vec![timeblock(0, 0, 3), timeblock(2, 3, 4)]).unwrap();
    assert!(!p.is_runnable());
    // Indices do not matter when everything is calibrated at once.
    p.output_model_vis_params = Some(OutputVisParams {
        output_autos: false,
    });
    assert!(p.is_runnable());
    let mut p = params(None);
    p.cal_timeblocks = Vec1::try_from_vec(vec![timeblock(0, 0, 3), timeblock(1, 3, 5)]).unwrap();
    assert!(!p.is_runnable());
    assert!(p.is_loadable(2, 2));
    assert!(!p.is_loadable(0, 5));
    assert!(p.is_loadable(0, 4));
}

#[test]
fn frequencies_of_channels() {
    assert_eq!(
        params(None).input_vis_params.get_freqs(),
        vec![b(150e6), b(160e6)]
    );
}

fn filled_frame(shape: (usize, usize), value: f32) -> ModelFrame {
    let mut frame = ModelFrame::blank(shape);
    for c in 0..shape.0 {
        for i in 0..shape.1 {
            assert!(frame.set(c, i, vis(value)));
        }
    }
    frame
}

#[test]
fn messages_tell_of_the_timestep() {
    let input = params(None).input_vis_params;
    let timeblocks = vec![timeblock(0, 0, 1), timeblock(1, 7, 9)];
    let step = ModelStep::Send { timestep: 1 };
    let weight = 0.8_f32.to_bits();
    let work = ModelLoop {
        num_timesteps: 2,
        model_autos: true,
    };
    let autos = Some(filled_frame((2, 3), 5.0));
    let message = work.message(
        &input,
        &timeblocks,
        &step,
        filled_frame((2, 3), 4.0),
        autos,
        weight,
    );
    assert_eq!(message.timestamp, timeblock(1, 7, 9).median);
    assert_eq!(message.cross_data_fb.get(1, 2), Some(vis(4.0)));
    assert_eq!(message.cross_weights_fb.shape(), (2, 3));
    assert_eq!(message.cross_weights_fb.get(1, 2), Some(weight));
    assert_eq!(message.cross_weights_fb.get(2, 0), None);
    let (autos, weights) = message.autos.unwrap();
    assert_eq!(autos.get(0, 0), Some(vis(5.0)));
    assert_eq!(weights.get(1, 1), Some(weight));

    let work = ModelLoop {
        num_timesteps: 2,
        model_autos: false,
    };
    let message = work.message(
        &input,
        &timeblocks,
        &ModelStep::Send { timestep: 0 },
        filled_frame((2, 3), 4.0),
        None,
        weight,
    );
    assert_eq!(message.timestamp, timeblock(0, 0, 1).median);
    assert!(message.autos.is_none());
}

#[test]
fn models_go_into_their_timestep() {
    let mut cal_vis = fill(allocate((2, 2, 3)).unwrap());
    cal_vis
        .vis_model
        .set_timestep(1, &filled_frame((2, 3), 9.0));
    assert_eq!(cal_vis.vis_model.get(0, 1, 2), Some(vis(5.0)));
    assert_eq!(cal_vis.vis_model.get(1, 0, 0), Some(vis(9.0)));
    assert_eq!(cal_vis.vis_model.get(1, 1, 2), Some(vis(9.0)));
}

#[test]
fn weights_go_into_their_timestep() {
    let mut cal_vis = fill(allocate((2, 2, 3)).unwrap());
    let before = cal_vis.vis_weights.get(0, 1, 2);
    let mut frame = WeightFrame::blank((2, 3));
    assert_eq!(frame.get(1, 2), Some(0));
    assert!(frame.set(1, 2, 7));
    assert!(!frame.set(2, 0, 7));
    assert_eq!(frame.get(1, 2), Some(7));
    assert_eq!(frame.get(1, 1), Some(0));
    cal_vis.vis_weights.set_timestep(1, &frame);
    assert_eq!(cal_vis.vis_weights.get(0, 1, 2), before);
    assert_eq!(cal_vis.vis_weights.get(1, 1, 2), Some(7));
    assert_eq!(cal_vis.vis_weights.get(1, 0, 0), Some(0));
}

#[test]
fn loading_into_given_arrays() {
    let p = params(None);
    let load = |cal_vis: CalVis, start: usize, end: usize, autos: bool| {
        assert_eq!((start, end, autos), (1, 3, false));
        (fill_by_timeblock(cal_vis, start), fine())
    };
    let cal_vis = p
        .load_into(1..3, allocate((2, 2, 3)), &load, &product, &scale)
        .unwrap();
    let again = p
        .get_cal_vis_for_input_range(1..3, &load, &product, &scale)
        .unwrap();
    assert_eq!(cal_vis.pols, Polarisations::XxYy);
    assert_eq!(cal_vis.vis_data.get(1, 1, 2), again.vis_data.get(1, 1, 2));

    let unused = |_: CalVis, _: usize, _: usize, _: bool| -> (CalVis, ThreadResults) {
        unreachable!("nothing to fill")
    };
    let error = DiCalibrateError::InsufficientMemory { need_bytes: 816 };
    assert!(matches!(
        p.load_into(1..3, Err(error), &unused, &product, &scale),
        Err(DiCalibrateError::InsufficientMemory { need_bytes: 816 })
    ));
}

#[test]
fn calibration_stops_at_the_first_error() {
    let p = params(None);
    let got = std::cell::RefCell::new(vec![]);
    let get = |start: usize, end: usize| {
        got.borrow_mut().push((start, end));
        if start == 0 {
            Ok(fill_by_timeblock(allocate((end - start, 2, 3)).unwrap(), start))
        } else {
            Err(DiCalibrateError::Model("no sources".to_string()))
        }
    };
    let calibrate = |_: &CalVis,
                     timeblocks: &Vec1<Timeblock>,
                     _: &Vec<Chanblock>,
                     _: u32,
                     _: Binary64,
                     _: Binary64| {
        assert_eq!(timeblocks.len(), 1);
        (
            SolutionCube::identities((1, 3, 2)),
            PrecisionGrid::from_shape_vec(1, 2, vec![b(0.5); 2]).unwrap(),
        )
    };
    match p.run_with(&get, &calibrate) {
        Err(DiCalibrateError::Model(e)) => assert_eq!(e, "no sources"),
        other => panic!("{:?}", other.is_ok()),
    }
    assert_eq!(*got.borrow(), vec![(0, 3), (3, 4)]);

    let all = |start: usize, end: usize| {
        Ok(fill_by_timeblock(allocate((end - start, 2, 3)).unwrap(), start))
    };
    let (incomplete, precisions) = p.run_with(&all, &calibrate).unwrap();
    assert_eq!(incomplete.di_jones.shape(), (2, 3, 2));
    assert_eq!(precisions.get(1, 1), Some(b(0.5)));
}
