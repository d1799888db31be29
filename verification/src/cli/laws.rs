//! What the arguments of SKA simulations are for.

use hifitime::Epoch;
use std::path::PathBuf;
use vstd::arithmetic::power2::pow2;
use vstd::prelude::*;

use super::channels::{coarse_channels, dedup, fine_channels, without_repeats};
use super::merge::{VisSimulateSkaArgs, VisSimulateSkaCliArgs};
use super::vis_simulate_ska::{
    args_error, check_phase_centre, choose_timestamps, lemma_limits, lst_and_latitude,
    ArrayPosition, Dut1, MiddleFreq, Numerics, ObsContext, PhaseCentre, PrecessionInfo,
    SimulationPlan, VisSimulateArgsError,
};
use crate::beam::ska::SkaBeamParams;
use crate::binary64::Binary64;
use crate::non_empty::{instants_of, quantities_of};

verus! {

/// Is every argument of `r` that of `a` where `a` specifies it, and that of `b`
/// where `a` does not? A flag is set where either sets it.
pub open spec fn prefers(
    a: VisSimulateSkaCliArgs,
    b: VisSimulateSkaCliArgs,
    r: VisSimulateSkaCliArgs,
) -> bool {
    &&& a.measurement_set is Some ==> r.measurement_set == a.measurement_set
    &&& a.measurement_set is None ==> r.measurement_set == b.measurement_set
    &&& a.dut1 is Some ==> r.dut1 == a.dut1
    &&& a.dut1 is None ==> r.dut1 == b.dut1
    &&& a.ra is Some ==> r.ra == a.ra
    &&& a.ra is None ==> r.ra == b.ra
    &&& a.dec is Some ==> r.dec == a.dec
    &&& a.dec is None ==> r.dec == b.dec
    &&& a.num_fine_channels is Some ==> r.num_fine_channels == a.num_fine_channels
    &&& a.num_fine_channels is None ==> r.num_fine_channels == b.num_fine_channels
    &&& a.freq_res is Some ==> r.freq_res == a.freq_res
    &&& a.freq_res is None ==> r.freq_res == b.freq_res
    &&& a.middle_freq is Some ==> r.middle_freq == a.middle_freq
    &&& a.middle_freq is None ==> r.middle_freq == b.middle_freq
    &&& a.num_timesteps is Some ==> r.num_timesteps == a.num_timesteps
    &&& a.num_timesteps is None ==> r.num_timesteps == b.num_timesteps
    &&& a.time_res is Some ==> r.time_res == a.time_res
    &&& a.time_res is None ==> r.time_res == b.time_res
    &&& a.time_offset is Some ==> r.time_offset == a.time_offset
    &&& a.time_offset is None ==> r.time_offset == b.time_offset
    &&& a.array_position is Some ==> r.array_position == a.array_position
    &&& a.array_position is None ==> r.array_position == b.array_position
    &&& a.output_model_files is Some ==> r.output_model_files == a.output_model_files
    &&& a.output_model_files is None ==> r.output_model_files == b.output_model_files
    &&& a.output_model_time_average is Some ==> r.output_model_time_average
        == a.output_model_time_average
    &&& a.output_model_time_average is None ==> r.output_model_time_average
        == b.output_model_time_average
    &&& a.output_model_freq_average is Some ==> r.output_model_freq_average
        == a.output_model_freq_average
    &&& a.output_model_freq_average is None ==> r.output_model_freq_average
        == b.output_model_freq_average
    &&& r.ignore_dut1 <==> a.ignore_dut1 || b.ignore_dut1
    &&& r.filter_points <==> a.filter_points || b.filter_points
    &&& r.filter_gaussians <==> a.filter_gaussians || b.filter_gaussians
    &&& r.filter_shapelets <==> a.filter_shapelets || b.filter_shapelets
}

/// The command line wins: an argument that it specifies is kept whatever the file
/// has, and only what it leaves open is taken from the file.
pub proof fn lemma_the_command_line_wins(
    cli: VisSimulateSkaCliArgs,
    file: VisSimulateSkaCliArgs,
    r: VisSimulateSkaCliArgs,
)
    requires
        call_ensures(VisSimulateSkaCliArgs::merge, (cli, file), r),
    ensures
        prefers(cli, file, r),
{
}

/// Where nothing is specified on the command line, the file decides alone.
pub proof fn lemma_no_arguments_leave_all_to_the_file(
    nothing: VisSimulateSkaCliArgs,
    file: VisSimulateSkaCliArgs,
    r: VisSimulateSkaCliArgs,
)
    requires
        call_ensures(<VisSimulateSkaCliArgs as Default>::default, (), nothing),
        call_ensures(VisSimulateSkaCliArgs::merge, (nothing, file), r),
    ensures
        r == file,
{
}

/// All arguments are consolidated with those of the file that is named, if one is:
/// the command line wins, and the other arguments are merged in the same order.
/// The file is not asked for again. An error is that of reading the file.
pub proof fn lemma_all_arguments_are_consolidated<
    B,
    M,
    S,
    E,
    R: Fn(PathBuf) -> Result<VisSimulateSkaArgs<B, M, S>, E>,
    FB: Fn(B, B) -> B,
    FM: Fn(M, M) -> M,
    FS: Fn(S, S) -> S,
>(
    cli: VisSimulateSkaArgs<B, M, S>,
    read: R,
    beam: FB,
    modelling: FM,
    srclist: FS,
    r: Result<VisSimulateSkaArgs<B, M, S>, E>,
)
    requires
        call_ensures(
            VisSimulateSkaArgs::<B, M, S>::merge::<E, R, FB, FM, FS>,
            (cli, &read, &beam, &modelling, &srclist),
            r,
        ),
    ensures
        cli.args_file is None ==> r == Ok::<VisSimulateSkaArgs<B, M, S>, E>(cli),
        cli.args_file matches Some(path) ==> match r {
            Err(e) => read.ensures((path,), Err(e)),
            Ok(args) => exists|file: VisSimulateSkaArgs<B, M, S>|
                {
                    &&& #[trigger] read.ensures(
                        (path,),
                        Ok::<VisSimulateSkaArgs<B, M, S>, E>(file),
                    )
                    &&& args.args_file is None
                    &&& prefers(cli.simulate_args, file.simulate_args, args.simulate_args)
                    &&& beam.ensures((cli.beam_args, file.beam_args), args.beam_args)
                    &&& modelling.ensures(
                        (cli.modelling_args, file.modelling_args),
                        args.modelling_args,
                    )
                    &&& srclist.ensures((cli.srclist_args, file.srclist_args), args.srclist_args)
                },
        },
{
    if let Some(path) = cli.args_file {
        let file = choose|file: Result<VisSimulateSkaArgs<B, M, S>, E>|
            {
                &&& #[trigger] read.ensures((path,), file)
                &&& match file {
                    Err(e) => r == Err::<VisSimulateSkaArgs<B, M, S>, E>(e),
                    Ok(file) => r matches Ok(args) && args.consolidates(
                        cli,
                        file,
                        beam,
                        modelling,
                        srclist,
                    ),
                }
            };
        if let Ok(found) = file {
            assert(read.ensures((path,), Ok::<VisSimulateSkaArgs<B, M, S>, E>(found)));
        }
    }
}

/// Is an angle a number of degrees from `low` to `high`?
pub open spec fn degrees_within(angle: Binary64, low: int, high: int) -> bool {
    &&& !angle.spec_is_nan()
    &&& low * pow2(1074) <= angle.value() <= high * pow2(1074)
}

/// Are both coordinates of a phase centre given, or neither, and are they from 0
/// to 360 and from -90 to 90 degrees?
pub open spec fn coordinates_make_sense(ra: Option<Binary64>, dec: Option<Binary64>) -> bool {
    match (ra, dec) {
        (Some(ra), Some(dec)) => degrees_within(ra, 0, 360) && degrees_within(dec, -90, 90),
        (None, None) => true,
        _ => false,
    }
}

/// Is this a phase centre that was specified? Coordinates are taken as they are,
/// or the error tells what is wrong with them.
pub proof fn lemma_phase_centres_are_checked(
    ra: Option<Binary64>,
    dec: Option<Binary64>,
    r: Result<Option<(Binary64, Binary64)>, VisSimulateArgsError>,
)
    requires
        call_ensures(check_phase_centre, (ra, dec), r),
    ensures
        r is Ok <==> coordinates_make_sense(ra, dec),
        r matches Ok(Some((a, d))) ==> ra == Some(a) && dec == Some(d),
        r matches Ok(None) ==> ra is None && dec is None,
        r matches Err(e) ==> match (ra, dec) {
            (Some(a), Some(d)) => if !degrees_within(a, 0, 360) {
                e is RaInvalid
            } else {
                e is DecInvalid
            },
            _ => e is OnlyOneRAOrDec,
        },
{
    lemma_limits();
    lemma_at_zero();
}

proof fn lemma_at_zero()
    ensures
        0int * pow2(1074) == 0,
{
}

/// Do arguments make sense: coordinates as above, a whole array position, and
/// at least one time step and one fine channel of at least 2^-52 kHz?
pub open spec fn arguments_make_sense(args: VisSimulateSkaCliArgs) -> bool {
    &&& coordinates_make_sense(args.ra, args.dec)
    &&& args.array_position matches Some(position) ==> position@.len() == 3
    &&& args.freq_res matches Some(f) ==> f.spec_is_nan() || f.value() >= pow2(1022)
    &&& args.num_fine_channels != Some(0usize)
    &&& args.num_timesteps != Some(0usize)
}

/// Is a plan what the arguments ask for, and what the observation has where they
/// ask for nothing?
pub open spec fn plan_is_as_asked<
    D: Fn(MiddleFreq) -> Binary64,
    C: Fn(Binary64, Binary64, usize, usize) -> Binary64,
    R: Fn(Binary64) -> Binary64,
    T: Fn(Epoch, Option<Binary64>, Binary64, usize) -> Epoch,
>(
    args: VisSimulateSkaCliArgs,
    context: ObsContext,
    numerics: Numerics<D, C, R, T>,
    plan: SimulationPlan,
) -> bool {
    let fine = quantities_of(plan.fine_chan_freqs);
    let timestamps = instants_of(plan.timestamps);
    &&& match (args.ra, args.dec) {
        (Some(ra), Some(dec)) => plan.phase_centre == (PhaseCentre::Degrees { ra, dec }),
        _ => plan.phase_centre == PhaseCentre::Observed(context.phase_centre),
    }
    &&& match args.array_position {
        Some(position) => plan.array_position == (ArrayPosition::Degrees {
            longitude: position@[0],
            latitude: position@[1],
            height_metres: position@[2],
        }),
        None => plan.array_position == ArrayPosition::Observed(context.array_position),
    }
    &&& plan.num_tiles == context.tile_xyzs@.len()
    // A DUT1 of zero is asked for, or one is given, or it is that observed.
    &&& args.ignore_dut1 ==> plan.dut1 == Dut1::Nanoseconds(0)
    &&& !args.ignore_dut1 && args.dut1 is Some ==> plan.dut1 == Dut1::Seconds(args.dut1->0)
    &&& !args.ignore_dut1 && args.dut1 is None && context.dut1 is Some ==> plan.dut1
        == Dut1::Nanoseconds(context.dut1->0)
    &&& !args.ignore_dut1 && args.dut1 is None && context.dut1 is None ==> plan.dut1
        == Dut1::Nanoseconds(0)
    // Timesteps.
    &&& args.time_res is Some ==> plan.time_res == args.time_res->0
    &&& args.time_res is None ==> plan.time_res.is_int(8)
    &&& args.num_timesteps is Some ==> timestamps.len() == args.num_timesteps->0
    &&& args.num_timesteps is None ==> timestamps.len() == 14
    &&& plan.num_timesteps == timestamps.len()
    &&& forall|i: int|
        0 <= i < timestamps.len() ==> numerics.timestamp.ensures(
            (instants_of(context.timestamps)[0], args.time_offset, plan.time_res, i as usize),
            #[trigger] timestamps[i],
        )
    // Channels.
    &&& args.freq_res is Some ==> plan.freq_res == args.freq_res->0
    &&& args.freq_res is None ==> plan.freq_res.is_int(80)
    &&& match args.middle_freq {
        Some(f) => numerics.middle.ensures((MiddleFreq::Megahertz(f),), plan.middle_freq),
        None => numerics.middle.ensures((MiddleFreq::ObservedMean,), plan.middle_freq),
    }
    &&& args.num_fine_channels is Some ==> fine.len() == args.num_fine_channels->0
    &&& args.num_fine_channels is None ==> fine.len() == 384
    &&& forall|i: int|
        0 <= i < fine.len() ==> numerics.channel.ensures(
            (plan.middle_freq, plan.freq_res, fine.len() as usize, i as usize),
            #[trigger] fine[i],
        )
    &&& holds_coarse_channels(fine, numerics.coarse, plan.coarse_chan_freqs@)
    // Each kind of component is removed exactly if its own flag was given.
    &&& plan.filters is Some <==> args.filter_points || args.filter_gaussians
        || args.filter_shapelets
    &&& plan.filters matches Some(filters) ==> {
        &&& filters.points == args.filter_points
        &&& filters.gaussians == args.filter_gaussians
        &&& filters.shapelets == args.filter_shapelets
    }
}

/// The arguments of a simulation are obeyed one by one, and refused exactly if
/// they make no sense.
pub proof fn lemma_arguments_are_obeyed<
    D: Fn(MiddleFreq) -> Binary64,
    C: Fn(Binary64, Binary64, usize, usize) -> Binary64,
    R: Fn(Binary64) -> Binary64,
    T: Fn(Epoch, Option<Binary64>, Binary64, usize) -> Epoch,
>(
    args: VisSimulateSkaCliArgs,
    context: ObsContext,
    numerics: Numerics<D, C, R, T>,
    r: Result<SimulationPlan, VisSimulateArgsError>,
)
    requires
        call_ensures(
            VisSimulateSkaCliArgs::plan::<D, C, R, T>,
            (&args, &context, &numerics),
            r,
        ),
    ensures
        r is Ok <==> arguments_make_sense(args),
        r matches Ok(plan) ==> plan_is_as_asked(args, context, numerics, plan),
{
    lemma_when_arguments_make_sense(args);
    if let Ok(plan) = r {
        lemma_plan_is_as_asked(args, context, numerics, plan);
    }
}

pub(crate) proof fn lemma_when_arguments_make_sense(args: VisSimulateSkaCliArgs)
    ensures
        args_error(args) is None <==> arguments_make_sense(args),
{
    lemma_limits();
    lemma_at_zero();
    lemma_eighty();
}

proof fn lemma_eighty()
    ensures
        80 * pow2(1074) >= pow2(1022),
{
    vstd::arithmetic::power2::lemma_pow2_strictly_increases(1022, 1074);
}

pub(crate) proof fn lemma_plan_is_as_asked<
    D: Fn(MiddleFreq) -> Binary64,
    C: Fn(Binary64, Binary64, usize, usize) -> Binary64,
    R: Fn(Binary64) -> Binary64,
    T: Fn(Epoch, Option<Binary64>, Binary64, usize) -> Epoch,
>(
    args: VisSimulateSkaCliArgs,
    context: ObsContext,
    numerics: Numerics<D, C, R, T>,
    plan: SimulationPlan,
)
    requires
        args_error(args) is None,
        plan.follows(args, context, numerics),
    ensures
        plan_is_as_asked(args, context, numerics, plan),
{
    lemma_limits();
    let fine = quantities_of(plan.fine_chan_freqs);
    let all = choose|all: Seq<Binary64>| #[trigger]
        super::channels::coarse_of(fine, numerics.coarse, all) && plan.coarse_chan_freqs@
            == without_repeats(all);
    lemma_without_repeats(all);
    assert(is_dedup(all, plan.coarse_chan_freqs@));
    assert(lists_coarse(fine, numerics.coarse, all));
}

/// Which error comes of arguments that make no sense: that on the coordinates
/// first, then the array position, the width of channels, their number and the
/// number of time steps.
pub proof fn lemma_wrong_arguments_are_told<
    D: Fn(MiddleFreq) -> Binary64,
    C: Fn(Binary64, Binary64, usize, usize) -> Binary64,
    R: Fn(Binary64) -> Binary64,
    T: Fn(Epoch, Option<Binary64>, Binary64, usize) -> Epoch,
>(
    args: VisSimulateSkaCliArgs,
    context: ObsContext,
    numerics: Numerics<D, C, R, T>,
    e: VisSimulateArgsError,
)
    requires
        call_ensures(
            VisSimulateSkaCliArgs::plan::<D, C, R, T>,
            (&args, &context, &numerics),
            Err::<SimulationPlan, VisSimulateArgsError>(e),
        ),
    ensures
        is_the_error(args, e),
{
    lemma_error_is_told(args, e);
}

/// Is this the error that comes of arguments?
pub open spec fn is_the_error(args: VisSimulateSkaCliArgs, e: VisSimulateArgsError) -> bool {
    let narrow = args.freq_res matches Some(f) && !f.spec_is_nan() && f.value() < pow2(1022);
    let no_position = args.array_position matches Some(position) && position@.len() != 3;
    match e {
        VisSimulateArgsError::RaInvalid => {
            &&& args.ra is Some && args.dec is Some
            &&& !degrees_within(args.ra->0, 0, 360)
        },
        VisSimulateArgsError::DecInvalid => {
            &&& args.ra is Some && args.dec is Some
            &&& degrees_within(args.ra->0, 0, 360)
            &&& !degrees_within(args.dec->0, -90, 90)
        },
        VisSimulateArgsError::OnlyOneRAOrDec => args.ra is Some != args.dec is Some,
        VisSimulateArgsError::BadArrayPosition { pos } => {
            &&& coordinates_make_sense(args.ra, args.dec)
            &&& no_position
            &&& pos@ == args.array_position->0@
        },
        VisSimulateArgsError::FineChansWidthTooSmall => {
            &&& coordinates_make_sense(args.ra, args.dec) && !no_position
            &&& narrow
        },
        VisSimulateArgsError::FineChansZero => {
            &&& coordinates_make_sense(args.ra, args.dec) && !no_position && !narrow
            &&& args.num_fine_channels == Some(0usize)
        },
        VisSimulateArgsError::ZeroTimeSteps => {
            &&& coordinates_make_sense(args.ra, args.dec) && !no_position && !narrow
            &&& args.num_fine_channels != Some(0usize)
            &&& args.num_timesteps == Some(0usize)
        },
    }
}

pub(crate) proof fn lemma_error_is_told(args: VisSimulateSkaCliArgs, e: VisSimulateArgsError)
    requires
        args_error(args) matches Some(told) && super::vis_simulate_ska::same_error(e, told),
    ensures
        is_the_error(args, e),
{
    lemma_limits();
    lemma_at_zero();
    lemma_eighty();
}

/// There are as many timestamps as time steps are asked for, each by its number,
/// from the first of the observation on, with the offset and the resolution that
/// are asked for.
pub proof fn lemma_timestamps_are_as_asked<
    T: Fn(Epoch, Option<Binary64>, Binary64, usize) -> Epoch,
>(
    args: VisSimulateSkaCliArgs,
    context: ObsContext,
    timestamp: T,
    r: Option<vec1::Vec1<Epoch>>,
    i: usize,
)
    requires
        call_ensures(choose_timestamps::<T>, (&args, &context, &timestamp), r),
    ensures
        r is None <==> args.num_timesteps == Some(0usize),
        r matches Some(list) ==> {
            let timestamps = instants_of(list);
            let first = instants_of(context.timestamps)[0];
            &&& args.num_timesteps matches Some(n) ==> timestamps.len() == n
            &&& args.num_timesteps is None ==> timestamps.len() == 14
            &&& i < timestamps.len() && args.time_res is Some ==> timestamp.ensures(
                (first, args.time_offset, args.time_res->0, i),
                timestamps[i as int],
            )
            &&& i < timestamps.len() && args.time_res is None ==> exists|eight: Binary64|
                eight.is_int(8) && #[trigger] timestamp.ensures(
                    (first, args.time_offset, eight, i),
                    timestamps[i as int],
                )
        },
{
    lemma_limits();
    if let Some(list) = r {
        if i < instants_of(list).len() {
            let eight = super::vis_simulate_ska::chosen_time_res(args.time_res);
            assert(timestamp.ensures(
                (instants_of(context.timestamps)[0], args.time_offset, eight, i),
                instants_of(list)[i as int],
            ));
        }
    }
}

/// The local sidereal time goes with the latitude: both are precessed, unless that
/// isn't wanted.
pub proof fn lemma_precession_is_optional(
    no_precession: bool,
    info: PrecessionInfo,
    r: (Binary64, Binary64),
)
    requires
        call_ensures(lst_and_latitude, (no_precession, info), r),
    ensures
        !no_precession ==> r.0 == info.lmst_j2000 && r.1 == info.array_latitude_j2000,
        no_precession ==> r.0 == info.lmst && r.1 == info.array_latitude,
{
}

/// Does a beam get to know the observation, at a latitude and a reference
/// frequency?
pub open spec fn tells_of(
    params: SkaBeamParams,
    context: ObsContext,
    latitude_rad: Binary64,
    middle_freq_hz: Binary64,
) -> bool {
    &&& params.phase_centre == context.phase_centre
    &&& params.ska_site_latitude_rad == latitude_rad
    &&& params.reference_frequency_hz == middle_freq_hz
    &&& params.number_of_stations == context.tile_xyzs@.len()
    &&& params.station_angle_rad is Some == context.station_angles is Some
    &&& params.station_angle_rad is Some ==> params.station_angle_rad->0@
        == context.station_angles->0@
    &&& params.feed_angle_rad is Some == context.feed_angles is Some
    &&& params.feed_angle_rad is Some ==> params.feed_angle_rad->0@ == context.feed_angles->0@
    &&& params.feed_coordinates is Some == context.feed_coordinates is Some
    &&& params.feed_coordinates is Some ==> {
        &&& params.feed_coordinates->0@.len() == context.feed_coordinates->0@.len()
        &&& forall|k: int|
            0 <= k < params.feed_coordinates->0@.len() ==> (
            #[trigger] params.feed_coordinates->0@[k])@ == context.feed_coordinates->0@[k]@
    }
    &&& params.ecef_to_local_mats is Some == context.ecef_to_local_mats is Some
    &&& params.ecef_to_local_mats is Some ==> params.ecef_to_local_mats->0@
        == context.ecef_to_local_mats->0@
}

/// Beams get to know the observation.
pub proof fn lemma_beams_know_the_observation(
    context: ObsContext,
    latitude_rad: Binary64,
    middle_freq_hz: Binary64,
    r: SkaBeamParams,
)
    requires
        call_ensures(ObsContext::ska_beam_params, (&context, latitude_rad, middle_freq_hz), r),
    ensures
        tells_of(r, context, latitude_rad, middle_freq_hz),
{
}

/// Are both numbers, and the same?
pub open spec fn equal(a: Binary64, b: Binary64) -> bool {
    !a.spec_is_nan() && !b.spec_is_nan() && a.value() == b.value()
}

/// Is quantity `i` of `all` the one that was kept as `k`, or left out after it for
/// being equal?
pub open spec fn in_run(
    all: Seq<Binary64>,
    r: Seq<Binary64>,
    kept: Seq<int>,
    i: int,
    k: int,
) -> bool {
    &&& 0 <= k < kept.len()
    &&& kept[k] <= i
    &&& k + 1 < kept.len() ==> i < kept[k + 1]
    &&& kept[k] == i || equal(r[k], all[i])
}

/// Is quantity `i` of `all` accounted for?
pub open spec fn has_run(all: Seq<Binary64>, r: Seq<Binary64>, kept: Seq<int>, i: int) -> bool {
    exists|k: int| #[trigger] in_run(all, r, kept, i, k)
}

/// Does `kept` list where the quantities of `r` stand in `all`? What is left out
/// equals what was kept before it.
pub open spec fn keeps(all: Seq<Binary64>, r: Seq<Binary64>, kept: Seq<int>) -> bool {
    &&& kept.len() == r.len()
    &&& forall|k: int|
        #![trigger kept[k]]
        0 <= k < kept.len() ==> 0 <= kept[k] < all.len() && all[kept[k]] == r[k]
    &&& forall|k: int, j: int| 0 <= k < j < kept.len() ==> (#[trigger] kept[k]) < #[trigger] kept[j]
    &&& forall|i: int| 0 <= i < all.len() ==> #[trigger] has_run(all, r, kept, i)
}

/// Is `r` what is left of `all` when runs of equal quantities are cut down to
/// their first: no neighbours in `r` are equal?
pub open spec fn is_dedup(all: Seq<Binary64>, r: Seq<Binary64>) -> bool {
    &&& exists|kept: Seq<int>| #[trigger] keeps(all, r, kept)
    &&& forall|k: int|
        #![trigger r[k]]
        0 < k < r.len() ==> !equal(r[k - 1], r[k])
}

proof fn lemma_without_repeats(all: Seq<Binary64>)
    ensures
        is_dedup(all, without_repeats(all)),
    decreases all.len(),
{
    let r = without_repeats(all);
    if all.len() == 0 {
        assert(keeps(all, r, seq![]));
    } else {
        let init = all.drop_last();
        let before = without_repeats(init);
        lemma_without_repeats(init);
        let kept = choose|kept: Seq<int>| #[trigger] keeps(init, before, kept);
        lemma_keeps_one_more(all, r, before, kept);
        assert forall|k: int| #![trigger r[k]] 0 < k < r.len() implies !equal(r[k - 1], r[k]) by {
            if k < before.len() {
                assert(before[k] == r[k] && before[k - 1] == r[k - 1]);
            }
        }
    }
}

proof fn lemma_keeps_one_more(
    all: Seq<Binary64>,
    r: Seq<Binary64>,
    before: Seq<Binary64>,
    kept: Seq<int>,
)
    requires
        all.len() > 0,
        keeps(all.drop_last(), before, kept),
        r == if before.len() > 0 && equal(before.last(), all.last()) {
            before
        } else {
            before.push(all.last())
        },
    ensures
        exists|kept: Seq<int>| #[trigger] keeps(all, r, kept),
{
    let init = all.drop_last();
    let last = all.len() - 1;
    let repeats = before.len() > 0 && equal(before.last(), all.last());
    let now = if repeats {
        kept
    } else {
        kept.push(last)
    };
    assert forall|k: int| #![trigger now[k]] 0 <= k < now.len() implies 0 <= now[k] < all.len()
        && all[now[k]] == r[k] by {
        if k < kept.len() {
            assert(now[k] == kept[k]);
            assert(init[kept[k]] == before[k]);
        }
    }
    assert forall|k: int, j: int| 0 <= k < j < now.len() implies (#[trigger] now[k])
        < #[trigger] now[j] by {
        assert(now[k] == kept[k]);
        if j < kept.len() {
            assert(now[j] == kept[j]);
        }
    }
    assert forall|i: int| 0 <= i < all.len() implies #[trigger] has_run(all, r, now, i) by {
        if i < last {
            assert(has_run(init, before, kept, i));
            let k = choose|k: int| #[trigger] in_run(init, before, kept, i, k);
            assert(in_run(all, r, now, i, k));
        } else {
            assert(in_run(all, r, now, i, now.len() - 1));
        }
    }
    assert(keeps(all, r, now));
}

/// Runs of equal quantities are cut down to their first, and nothing else goes.
pub proof fn lemma_only_repeats_are_removed(all: Vec<Binary64>, r: Vec<Binary64>)
    requires
        call_ensures(dedup, (&all,), r),
    ensures
        is_dedup(all@, r@),
{
    lemma_without_repeats(all@);
}

/// Are these the coarse channels of fine channels, one by one?
pub open spec fn lists_coarse<R: Fn(Binary64) -> Binary64>(
    fine: Seq<Binary64>,
    coarse: R,
    all: Seq<Binary64>,
) -> bool {
    &&& all.len() == fine.len()
    &&& forall|i: int| 0 <= i < all.len() ==> coarse.ensures((fine[i],), #[trigger] all[i])
}

/// Are these the coarse channels that fine channels are in, without repeats?
pub open spec fn holds_coarse_channels<R: Fn(Binary64) -> Binary64>(
    fine: Seq<Binary64>,
    coarse: R,
    channels: Seq<Binary64>,
) -> bool {
    exists|all: Seq<Binary64>|
        #[trigger] lists_coarse(fine, coarse, all) && is_dedup(all, channels)
}

/// Every fine channel has its coarse channel among them, and repeats are gone.
pub proof fn lemma_coarse_channels_hold_all<R: Fn(Binary64) -> Binary64>(
    fine: vec1::Vec1<Binary64>,
    coarse: R,
    r: Vec<Binary64>,
)
    requires
        call_ensures(coarse_channels::<R>, (&fine, &coarse), r),
    ensures
        holds_coarse_channels(quantities_of(fine), coarse, r@),
{
    let all = choose|all: Seq<Binary64>| #[trigger]
        super::channels::coarse_of(quantities_of(fine), coarse, all) && r@ == without_repeats(all);
    lemma_without_repeats(all);
    assert(lists_coarse(quantities_of(fine), coarse, all));
}

/// There are as many fine channels as asked for, each where it belongs.
pub proof fn lemma_fine_channels_are_in_order<C: Fn(usize) -> Binary64>(
    num_fine_channels: usize,
    channel: C,
    r: Option<vec1::Vec1<Binary64>>,
)
    requires
        call_ensures(fine_channels::<C>, (num_fine_channels, &channel), r),
    ensures
        r is Some <==> num_fine_channels > 0,
        r matches Some(freqs) ==> quantities_of(freqs).len() == num_fine_channels,
        r matches Some(freqs) ==> forall|i: usize|
            i < num_fine_channels ==> channel.ensures(
                (i,),
                #[trigger] quantities_of(freqs)[i as int],
            ),
{
}

} // verus!
