//! What comes of all arguments of an SKA simulation together.

use hifitime::Epoch;
use vstd::prelude::*;

use super::laws::{
    arguments_make_sense, is_the_error, lemma_error_is_told, lemma_plan_is_as_asked,
    lemma_when_arguments_make_sense, plan_is_as_asked, tells_of,
};
use super::merge::VisSimulateSkaArgs;
use super::parse::{OutputVisArgs, Parsers, VisSimulateSkaError, VisSimulateSkaParams};
use super::vis_simulate_ska::{
    args_error, same_error, ArrayPosition, Dut1, Filters, MiddleFreq, Numerics, ObsContext,
    PhaseCentre, PrecessionInfo, SimulationPlan, VisInputType,
};
use crate::beam::delays::Delays;
use crate::beam::ska::SkaBeamParams;
use crate::binary64::Binary64;
use crate::non_empty::instants_of;

verus! {

/// Are this local sidereal time and latitude what precession from the first
/// timestamp on gives, and what the arguments on modelling want of it?
pub open spec fn is_the_frame<
    M,
    MP,
    PF: Fn(PhaseCentre, ArrayPosition, Epoch, Dut1) -> PrecessionInfo,
    MF: Fn(M) -> (bool, MP),
>(
    plan: SimulationPlan,
    precess: PF,
    modelling: MF,
    modelling_args: M,
    info: PrecessionInfo,
    no_precession: bool,
    modelling_params: MP,
    lst_rad: Binary64,
    latitude_rad: Binary64,
) -> bool {
    &&& precess.ensures(
        (plan.phase_centre, plan.array_position, instants_of(plan.timestamps)[0], plan.dut1),
        info,
    )
    &&& modelling.ensures((modelling_args,), (no_precession, modelling_params))
    &&& no_precession ==> lst_rad == info.lmst && latitude_rad == info.array_latitude
    &&& !no_precession ==> lst_rad == info.lmst_j2000 && latitude_rad == info.array_latitude_j2000
}

/// Is this what the arguments on the beam give for the observation?
pub open spec fn is_the_beam<
    B,
    BO,
    BF: Fn(
        B,
        usize,
        &Option<Delays>,
        &Option<Vec<Vec<Binary64>>>,
        Option<VisInputType>,
        SkaBeamParams,
    ) -> Result<BO, String>,
>(
    context: ObsContext,
    middle_freq: Binary64,
    beam: BF,
    beam_args: B,
    latitude_rad: Binary64,
    ska: SkaBeamParams,
    r: Result<BO, String>,
) -> bool {
    &&& tells_of(ska, context, latitude_rad, middle_freq)
    &&& beam.ensures(
        (
            beam_args,
            context.tile_xyzs@.len() as usize,
            &context.dipole_delays,
            &context.dipole_gains,
            Some(context.input_data_type),
            ska,
        ),
        r,
    )
}

/// Is this what the arguments on the sky model give for the simulation?
pub open spec fn is_the_source_list<
    S,
    BO,
    SL,
    SF: Fn(S, PhaseCentre, Binary64, Binary64, &Vec<Binary64>, &BO) -> Result<SL, String>,
>(
    srclist: SF,
    srclist_args: S,
    plan: SimulationPlan,
    lst_rad: Binary64,
    latitude_rad: Binary64,
    beam: BO,
    r: Result<SL, String>,
) -> bool {
    srclist.ensures(
        (
            srclist_args,
            plan.phase_centre,
            lst_rad,
            latitude_rad,
            &plan.coarse_chan_freqs,
            &beam,
        ),
        r,
    )
}

/// Is this the source list that was parsed, without the kinds of components that
/// were asked to be removed?
pub open spec fn is_filtered<SL, FF: Fn(SL, Filters) -> SL>(
    filter: FF,
    points: bool,
    gaussians: bool,
    shapelets: bool,
    list: SL,
    r: SL,
) -> bool {
    &&& !points && !gaussians && !shapelets ==> r == list
    &&& points || gaussians || shapelets ==> filter.ensures(
        (list, Filters { points, gaussians, shapelets }),
        r,
    )
}

/// Are these the arguments on output, and the file that is written if none is
/// specified?
pub open spec fn is_the_output<
    OV,
    OF: Fn(OutputVisArgs, &SimulationPlan, bool, &str, &str) -> Result<OV, String>,
>(
    output: OF,
    args: OutputVisArgs,
    plan: SimulationPlan,
    file: &str,
    kind: &str,
    r: Result<OV, String>,
) -> bool {
    &&& file@ == "hyp_model.uvfits"@
    &&& kind@ == "simulated"@
    &&& output.ensures((args, &plan, false, file, kind), r)
}

/// Do parameters come of the arguments, one by one?
pub open spec fn parameters_are_as_asked<
    B,
    M,
    S,
    D: Fn(MiddleFreq) -> Binary64,
    C: Fn(Binary64, Binary64, usize, usize) -> Binary64,
    R: Fn(Binary64) -> Binary64,
    T: Fn(Epoch, Option<Binary64>, Binary64, usize) -> Epoch,
    BO,
    MP,
    SL,
    OV,
    PF: Fn(PhaseCentre, ArrayPosition, Epoch, Dut1) -> PrecessionInfo,
    MF: Fn(M) -> (bool, MP),
    BF: Fn(
        B,
        usize,
        &Option<Delays>,
        &Option<Vec<Vec<Binary64>>>,
        Option<VisInputType>,
        SkaBeamParams,
    ) -> Result<BO, String>,
    SF: Fn(S, PhaseCentre, Binary64, Binary64, &Vec<Binary64>, &BO) -> Result<SL, String>,
    FF: Fn(SL, Filters) -> SL,
    OF: Fn(OutputVisArgs, &SimulationPlan, bool, &str, &str) -> Result<OV, String>,
>(
    args: VisSimulateSkaArgs<B, M, S>,
    context: ObsContext,
    numerics: Numerics<D, C, R, T>,
    parsers: Parsers<PF, MF, BF, SF, FF, OF>,
    p: VisSimulateSkaParams<BO, MP, SL, OV>,
) -> bool {
    let sim = args.simulate_args;
    &&& plan_is_as_asked(sim, context, numerics, p.plan)
    &&& p.context == context
    &&& p.tile_xyzs@ == context.tile_xyzs@
    &&& p.tile_names@.len() == context.tile_names@.len()
    &&& forall|i: int|
        0 <= i < p.tile_names@.len() ==> (#[trigger] p.tile_names@[i])@ == context.tile_names@[i]@
    &&& forall|i: usize| !p.flagged_tiles@.contains(i)
    &&& exists|info: PrecessionInfo, no_precession: bool| #[trigger]
        is_the_frame(
            p.plan,
            parsers.precess,
            parsers.modelling,
            args.modelling_args,
            info,
            no_precession,
            p.modelling_params,
            p.lst_rad,
            p.latitude_rad,
        )
    &&& exists|ska: SkaBeamParams| #[trigger]
        is_the_beam(
            context,
            p.plan.middle_freq,
            parsers.beam,
            args.beam_args,
            p.latitude_rad,
            ska,
            Ok::<BO, String>(p.beam),
        )
    &&& exists|list: SL|
        {
            &&& is_the_source_list(
                parsers.srclist,
                args.srclist_args,
                p.plan,
                p.lst_rad,
                p.latitude_rad,
                p.beam,
                Ok::<SL, String>(list),
            )
            &&& #[trigger] is_filtered(
                parsers.filter,
                sim.filter_points,
                sim.filter_gaussians,
                sim.filter_shapelets,
                list,
                p.source_list,
            )
        }
    &&& exists|file: &str, kind: &str| #[trigger]
        is_the_output(
            parsers.output,
            OutputVisArgs {
                outputs: sim.output_model_files,
                output_vis_time_average: sim.output_model_time_average,
                output_vis_freq_average: sim.output_model_freq_average,
            },
            p.plan,
            file,
            kind,
            Ok::<OV, String>(p.output_vis_params),
        )
}

/// Is this the error that the arguments on the beam gave?
pub open spec fn beam_is_refused<
    B,
    BO,
    BF: Fn(
        B,
        usize,
        &Option<Delays>,
        &Option<Vec<Vec<Binary64>>>,
        Option<VisInputType>,
        SkaBeamParams,
    ) -> Result<BO, String>,
>(context: ObsContext, beam: BF, beam_args: B, r: Result<BO, String>) -> bool {
    exists|middle_freq: Binary64, latitude_rad: Binary64, ska: SkaBeamParams| #[trigger]
        is_the_beam(context, middle_freq, beam, beam_args, latitude_rad, ska, r)
}

/// Is this the error that the arguments on the sky model gave?
pub open spec fn source_list_is_refused<
    S,
    BO,
    SL,
    SF: Fn(S, PhaseCentre, Binary64, Binary64, &Vec<Binary64>, &BO) -> Result<SL, String>,
>(srclist: SF, srclist_args: S, r: Result<SL, String>) -> bool {
    exists|plan: SimulationPlan, lst_rad: Binary64, latitude_rad: Binary64, beam: BO| #[trigger]
        is_the_source_list(srclist, srclist_args, plan, lst_rad, latitude_rad, beam, r)
}

/// Is this the error that the arguments on output gave?
pub open spec fn output_is_refused<
    OV,
    OF: Fn(OutputVisArgs, &SimulationPlan, bool, &str, &str) -> Result<OV, String>,
>(output: OF, args: OutputVisArgs, r: Result<OV, String>) -> bool {
    exists|plan: SimulationPlan, file: &str, kind: &str| #[trigger]
        is_the_output(output, args, plan, file, kind, r)
}

/// Does an error come of the parser that it tells of?
pub open spec fn error_is_as_told<
    B,
    M,
    S,
    BO,
    MP,
    SL,
    OV,
    PF: Fn(PhaseCentre, ArrayPosition, Epoch, Dut1) -> PrecessionInfo,
    MF: Fn(M) -> (bool, MP),
    BF: Fn(
        B,
        usize,
        &Option<Delays>,
        &Option<Vec<Vec<Binary64>>>,
        Option<VisInputType>,
        SkaBeamParams,
    ) -> Result<BO, String>,
    SF: Fn(S, PhaseCentre, Binary64, Binary64, &Vec<Binary64>, &BO) -> Result<SL, String>,
    FF: Fn(SL, Filters) -> SL,
    OF: Fn(OutputVisArgs, &SimulationPlan, bool, &str, &str) -> Result<OV, String>,
>(
    args: VisSimulateSkaArgs<B, M, S>,
    context: ObsContext,
    parsers: Parsers<PF, MF, BF, SF, FF, OF>,
    e: VisSimulateSkaError,
) -> bool {
    match e {
        VisSimulateSkaError::Args(e) => is_the_error(args.simulate_args, e),
        VisSimulateSkaError::Beam(e) => beam_is_refused(
            context,
            parsers.beam,
            args.beam_args,
            Err::<BO, String>(e),
        ),
        VisSimulateSkaError::SourceList(e) => source_list_is_refused(
            parsers.srclist,
            args.srclist_args,
            Err::<SL, String>(e),
        ),
        VisSimulateSkaError::Output(e) => output_is_refused(
            parsers.output,
            OutputVisArgs {
                outputs: args.simulate_args.output_model_files,
                output_vis_time_average: args.simulate_args.output_model_time_average,
                output_vis_freq_average: args.simulate_args.output_model_freq_average,
            },
            Err::<OV, String>(e),
        ),
        VisSimulateSkaError::Simulation(_) => false,
    }
}

/// All arguments are made sense of one by one, with what the observation has. An
/// error is that of the arguments on the simulation exactly if these make no
/// sense, and otherwise what one of the parsers gave.
pub proof fn lemma_parameters_are_as_asked<
    B,
    M,
    S,
    D: Fn(MiddleFreq) -> Binary64,
    C: Fn(Binary64, Binary64, usize, usize) -> Binary64,
    R: Fn(Binary64) -> Binary64,
    T: Fn(Epoch, Option<Binary64>, Binary64, usize) -> Epoch,
    BO,
    MP,
    SL,
    OV,
    PF: Fn(PhaseCentre, ArrayPosition, Epoch, Dut1) -> PrecessionInfo,
    MF: Fn(M) -> (bool, MP),
    BF: Fn(
        B,
        usize,
        &Option<Delays>,
        &Option<Vec<Vec<Binary64>>>,
        Option<VisInputType>,
        SkaBeamParams,
    ) -> Result<BO, String>,
    SF: Fn(S, PhaseCentre, Binary64, Binary64, &Vec<Binary64>, &BO) -> Result<SL, String>,
    FF: Fn(SL, Filters) -> SL,
    OF: Fn(OutputVisArgs, &SimulationPlan, bool, &str, &str) -> Result<OV, String>,
>(
    args: VisSimulateSkaArgs<B, M, S>,
    context: ObsContext,
    numerics: Numerics<D, C, R, T>,
    parsers: Parsers<PF, MF, BF, SF, FF, OF>,
    r: Result<VisSimulateSkaParams<BO, MP, SL, OV>, VisSimulateSkaError>,
)
    requires
        context.tile_xyzs@.len() <= usize::MAX,
        call_ensures(
            VisSimulateSkaArgs::<B, M, S>::parse::<
                D,
                C,
                R,
                T,
                BO,
                MP,
                SL,
                OV,
                PF,
                MF,
                BF,
                SF,
                FF,
                OF,
            >,
            (args, context, &numerics, &parsers),
            r,
        ),
    ensures
        match r {
            Ok(p) => {
                &&& arguments_make_sense(args.simulate_args)
                &&& parameters_are_as_asked(args, context, numerics, parsers, p)
            },
            Err(e) => {
                &&& e is Args <==> !arguments_make_sense(args.simulate_args)
                &&& error_is_as_told(args, context, parsers, e)
            },
        },
{
    lemma_parsed(args, context, numerics, parsers, r);
}

proof fn lemma_parsed<
    B,
    M,
    S,
    D: Fn(MiddleFreq) -> Binary64,
    C: Fn(Binary64, Binary64, usize, usize) -> Binary64,
    R: Fn(Binary64) -> Binary64,
    T: Fn(Epoch, Option<Binary64>, Binary64, usize) -> Epoch,
    BO,
    MP,
    SL,
    OV,
    PF: Fn(PhaseCentre, ArrayPosition, Epoch, Dut1) -> PrecessionInfo,
    MF: Fn(M) -> (bool, MP),
    BF: Fn(
        B,
        usize,
        &Option<Delays>,
        &Option<Vec<Vec<Binary64>>>,
        Option<VisInputType>,
        SkaBeamParams,
    ) -> Result<BO, String>,
    SF: Fn(S, PhaseCentre, Binary64, Binary64, &Vec<Binary64>, &BO) -> Result<SL, String>,
    FF: Fn(SL, Filters) -> SL,
    OF: Fn(OutputVisArgs, &SimulationPlan, bool, &str, &str) -> Result<OV, String>,
>(
    args: VisSimulateSkaArgs<B, M, S>,
    context: ObsContext,
    numerics: Numerics<D, C, R, T>,
    parsers: Parsers<PF, MF, BF, SF, FF, OF>,
    r: Result<VisSimulateSkaParams<BO, MP, SL, OV>, VisSimulateSkaError>,
)
    requires
        args.parsed(context, numerics, parsers, r),
    ensures
        match r {
            Ok(p) => {
                &&& arguments_make_sense(args.simulate_args)
                &&& parameters_are_as_asked(args, context, numerics, parsers, p)
            },
            Err(e) => {
                &&& e is Args <==> !arguments_make_sense(args.simulate_args)
                &&& error_is_as_told(args, context, parsers, e)
            },
        },
{
    lemma_when_arguments_make_sense(args.simulate_args);
    if let Some(e) = args_error(args.simulate_args) {
        if let Err(VisSimulateSkaError::Args(found)) = r {
            assert(same_error(found, e));
            lemma_error_is_told(args.simulate_args, found);
        }
    } else {
        let plan = choose|plan: SimulationPlan|
            #![trigger args.with_plan(context, plan, parsers, r)]
            plan.follows(args.simulate_args, context, numerics) && args.with_plan(
                context,
                plan,
                parsers,
                r,
            );
        lemma_plan_is_as_asked(args.simulate_args, context, numerics, plan);
        let (info, modelling, ska, made) = choose|
            info: PrecessionInfo,
            modelling: (bool, MP),
            ska: SkaBeamParams,
            made: Result<BO, String>,
        | #[trigger]
            args.with_beam(context, plan, parsers, info, modelling, ska, made, r);
        assert(args.with_beam(context, plan, parsers, info, modelling, ska, made, r));
        let frame = info.frame(modelling.0);
        assert(is_the_beam(
            context,
            plan.middle_freq,
            parsers.beam,
            args.beam_args,
            frame.1,
            ska,
            made,
        ));
        assert(modelling == (modelling.0, modelling.1));
        if let Err(e) = made {
            assert(is_the_beam(
                context,
                plan.middle_freq,
                parsers.beam,
                args.beam_args,
                frame.1,
                ska,
                Err::<BO, String>(e),
            ));
        }
        if let Ok(beam) = made {
            let list = choose|list: Result<SL, String>| #[trigger]
                args.with_source_list(
                    context,
                    plan,
                    parsers,
                    frame,
                    modelling.1,
                    beam,
                    list,
                    r,
                );
            assert(is_the_source_list(
                parsers.srclist,
                args.srclist_args,
                plan,
                frame.0,
                frame.1,
                beam,
                list,
            ));
            if let Err(e) = list {
                assert(is_the_source_list(
                    parsers.srclist,
                    args.srclist_args,
                    plan,
                    frame.0,
                    frame.1,
                    beam,
                    Err::<SL, String>(e),
                ));
            }
            if let Ok(list) = list {
                let (filtered, output) = choose|filtered: SL, output: Result<OV, String>| #[trigger]
                    args.with_output(
                        context,
                        plan,
                        parsers,
                        frame,
                        modelling.1,
                        beam,
                        list,
                        filtered,
                        output,
                        r,
                    );
                let sim = args.simulate_args;
                assert(is_the_output(
                    parsers.output,
                    OutputVisArgs {
                        outputs: sim.output_model_files,
                        output_vis_time_average: sim.output_model_time_average,
                        output_vis_freq_average: sim.output_model_freq_average,
                    },
                    plan,
                    super::parse::DEFAULT_OUTPUT_VIS_FILENAME,
                    super::parse::OUTPUT_KIND,
                    output,
                ));
                if let Err(e) = output {
                    assert(is_the_output(
                        parsers.output,
                        OutputVisArgs {
                            outputs: sim.output_model_files,
                            output_vis_time_average: sim.output_model_time_average,
                            output_vis_freq_average: sim.output_model_freq_average,
                        },
                        plan,
                        super::parse::DEFAULT_OUTPUT_VIS_FILENAME,
                        super::parse::OUTPUT_KIND,
                        Err::<OV, String>(e),
                    ));
                }
                if let Ok(p) = r {
                    assert(is_the_frame(
                        plan,
                        parsers.precess,
                        parsers.modelling,
                        args.modelling_args,
                        info,
                        modelling.0,
                        modelling.1,
                        frame.0,
                        frame.1,
                    ));
                    assert(is_filtered(
                        parsers.filter,
                        sim.filter_points,
                        sim.filter_gaussians,
                        sim.filter_shapelets,
                        list,
                        filtered,
                    ));
                }
            }
        }
    }
}

/// A simulation is run with what the arguments ask for, and its error is told,
/// unless this is a dry run. Wrong arguments are told in dry runs too.
pub proof fn lemma_simulations_are_run_as_asked<
    B,
    M,
    S,
    D: Fn(MiddleFreq) -> Binary64,
    C: Fn(Binary64, Binary64, usize, usize) -> Binary64,
    R: Fn(Binary64) -> Binary64,
    T: Fn(Epoch, Option<Binary64>, Binary64, usize) -> Epoch,
    BO,
    MP,
    SL,
    OV,
    PF: Fn(PhaseCentre, ArrayPosition, Epoch, Dut1) -> PrecessionInfo,
    MF: Fn(M) -> (bool, MP),
    BF: Fn(
        B,
        usize,
        &Option<Delays>,
        &Option<Vec<Vec<Binary64>>>,
        Option<VisInputType>,
        SkaBeamParams,
    ) -> Result<BO, String>,
    SF: Fn(S, PhaseCentre, Binary64, Binary64, &Vec<Binary64>, &BO) -> Result<SL, String>,
    FF: Fn(SL, Filters) -> SL,
    OF: Fn(OutputVisArgs, &SimulationPlan, bool, &str, &str) -> Result<OV, String>,
    F: Fn(VisSimulateSkaParams<BO, MP, SL, OV>) -> Result<(), String>,
>(
    args: VisSimulateSkaArgs<B, M, S>,
    context: ObsContext,
    numerics: Numerics<D, C, R, T>,
    parsers: Parsers<PF, MF, BF, SF, FF, OF>,
    dry_run: bool,
    simulate: F,
    r: Result<(), VisSimulateSkaError>,
)
    requires
        call_ensures(
            VisSimulateSkaArgs::<B, M, S>::run::<
                D,
                C,
                R,
                T,
                BO,
                MP,
                SL,
                OV,
                PF,
                MF,
                BF,
                SF,
                FF,
                OF,
                F,
            >,
            (args, context, &numerics, &parsers, dry_run, &simulate),
            r,
        ),
    ensures
        match r {
            Ok(()) => {
                &&& arguments_make_sense(args.simulate_args)
                &&& !dry_run ==> exists|p: VisSimulateSkaParams<BO, MP, SL, OV>|
                    #[trigger] parameters_are_as_asked(args, context, numerics, parsers, p)
                        && simulate.ensures((p,), Ok::<(), String>(()))
            },
            Err(VisSimulateSkaError::Simulation(e)) => {
                &&& !dry_run
                &&& exists|p: VisSimulateSkaParams<BO, MP, SL, OV>|
                    #[trigger] parameters_are_as_asked(args, context, numerics, parsers, p)
                        && simulate.ensures((p,), Err::<(), String>(e))
            },
            Err(e) => {
                &&& e is Args <==> !arguments_make_sense(args.simulate_args)
                &&& error_is_as_told(args, context, parsers, e)
            },
        },
{
    let found = choose|found: Result<VisSimulateSkaParams<BO, MP, SL, OV>, VisSimulateSkaError>|
        #![trigger args.parsed(context, numerics, parsers, found)]
        args.parsed(context, numerics, parsers, found) && VisSimulateSkaArgs::<B, M, S>::ran(
            found,
            dry_run,
            simulate,
            r,
        );
    lemma_parsed(args, context, numerics, parsers, found);
    if let Ok(p) = found {
        if !dry_run {
            let done = choose|done: Result<(), String>|
                {
                    &&& #[trigger] simulate.ensures((p,), done)
                    &&& r == (match done {
                        Ok(()) => Ok::<(), VisSimulateSkaError>(()),
                        Err(e) => Err(VisSimulateSkaError::Simulation(e)),
                    })
                };
            if let Ok(u) = done {
                assert(u == ());
            }
        }
    }
}

} // verus!
