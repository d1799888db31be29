//! From all arguments of an SKA simulation to its parameters.

use hifitime::Epoch;
use std::collections::HashSet;
use std::path::PathBuf;
use vstd::prelude::*;

use super::merge::{VisSimulateSkaArgs, VisSimulateSkaCliArgs};
use super::vis_simulate_ska::{
    args_error, lst_and_latitude, same_error, ArrayPosition, Dut1, Filters, MiddleFreq, Numerics,
    ObsContext, PhaseCentre, PrecessionInfo, SimulationPlan, VisInputType, VisSimulateArgsError,
    XyzGeodetic,
};
use crate::beam::delays::Delays;
use crate::beam::ska::SkaBeamParams;
use crate::binary64::Binary64;
use crate::copies::copy_of;
use crate::non_empty::{instants_as_vec, instants_of};

verus! {

/// The file that is written if none is specified.
pub const DEFAULT_OUTPUT_VIS_FILENAME: &'static str = "hyp_model.uvfits";

/// Only cross-correlations are written.
pub const WRITE_AUTOS: bool = false;

/// The kind of visibilities that are written.
pub const OUTPUT_KIND: &'static str = "simulated";

/// Arguments on output visibilities.
#[derive(Debug)]
pub struct OutputVisArgs {
    pub outputs: Option<Vec<PathBuf>>,
    pub output_vis_time_average: Option<String>,
    pub output_vis_freq_average: Option<String>,
}

/// Parameters of a simulation.
#[derive(Debug)]
pub struct VisSimulateSkaParams<BO, MP, SL, OV> {
    pub context: ObsContext,
    pub tile_xyzs: Vec<XyzGeodetic>,
    pub tile_names: Vec<String>,
    pub flagged_tiles: HashSet<usize>,
    pub plan: SimulationPlan,
    pub lst_rad: Binary64,
    pub latitude_rad: Binary64,
    pub beam: BO,
    pub modelling_params: MP,
    pub source_list: SL,
    pub output_vis_params: OV,
}

impl<BO, MP, SL, OV> VisSimulateSkaParams<BO, MP, SL, OV> {
    /// Are these the tiles of an observation, all of them unflagged?
    pub open spec fn has_all_tiles(self, context: ObsContext) -> bool {
        &&& self.tile_xyzs@ == context.tile_xyzs@
        &&& same_names(self.tile_names@, context.tile_names@)
        &&& self.flagged_tiles@ == Set::<usize>::empty()
    }
}

/// Are both the same names?
pub open spec fn same_names(a: Seq<String>, b: Seq<String>) -> bool {
    &&& a.len() == b.len()
    &&& forall|i: int| 0 <= i < a.len() ==> (#[trigger] a[i])@ == b[i]@
}

fn copy_names(names: &Vec<String>) -> (r: Vec<String>)
    ensures
        same_names(r@, names@),
{
    let mut r: Vec<String> = Vec::new();
    let mut i: usize = 0;
    while i < names.len()
        invariant
            i <= names@.len(),
            r@.len() == i,
            forall|k: int| 0 <= k < i ==> (#[trigger] r@[k])@ == names@[k]@,
        decreases names.len() - i,
    {
        r.push(names[i].clone());
        i = i + 1;
    }
    r
}

/// Errors of simulations.
#[derive(Debug)]
pub enum VisSimulateSkaError {
    /// The arguments are wrong.
    Args(VisSimulateArgsError),

    /// The beam cannot be set up.
    Beam(String),

    /// The source list cannot be had.
    SourceList(String),

    /// The output cannot be written like that.
    Output(String),

    /// The simulation went wrong.
    Simulation(String),
}

/// What makes sense of the other arguments.
pub struct Parsers<PF, MF, BF, SF, FF, OF> {
    /// Precesses a phase centre and an array position to J2000 at an instant.
    pub precess: PF,

    /// Makes sense of the arguments on modelling. Says first whether precession
    /// is not wanted.
    pub modelling: MF,

    /// Makes sense of the arguments on the beam, for a number of tiles and an SKA
    /// observation, given its dipole delays and gains and what it was read from.
    pub beam: BF,

    /// Makes sense of the arguments on the sky model, given the phase centre, the
    /// local sidereal time, the latitude, the coarse channels and the beam.
    pub srclist: SF,

    /// Removes kinds of components from a source list.
    pub filter: FF,

    /// Makes sense of the arguments on output visibilities, given whether
    /// auto-correlations are written, the file to write if none is specified, and
    /// what kind of visibilities it gets.
    pub output: OF,
}

impl VisSimulateSkaCliArgs {
    /// The output model vis args as normal output vis args.
    pub open spec fn output_args(self) -> OutputVisArgs {
        OutputVisArgs {
            outputs: self.output_model_files,
            output_vis_time_average: self.output_model_time_average,
            output_vis_freq_average: self.output_model_freq_average,
        }
    }
}

impl<B, M, S> VisSimulateSkaArgs<B, M, S> {
    /// Can sense be made of all arguments?
    pub open spec fn parsers_ready<
        BO,
        MP,
        SL,
        OV,
        PF: Fn(PhaseCentre, ArrayPosition, Epoch, Dut1) -> PrecessionInfo,
        MF: Fn(M) -> (bool, MP),
        BF: Fn(
            B,
            usize,
            &Option<Delays>,
            &Option<Vec<Vec<Binary64>>>,
            Option<VisInputType>,
            SkaBeamParams,
        ) -> Result<BO, String>,
        SF: Fn(S, PhaseCentre, Binary64, Binary64, &Vec<Binary64>, &BO) -> Result<SL, String>,
        FF: Fn(SL, Filters) -> SL,
        OF: Fn(OutputVisArgs, &SimulationPlan, bool, &str, &str) -> Result<OV, String>,
    >(parsers: Parsers<PF, MF, BF, SF, FF, OF>) -> bool {
        &&& forall|p: PhaseCentre, a: ArrayPosition, t: Epoch, d: Dut1| #[trigger]
            parsers.precess.requires((p, a, t, d))
        &&& forall|m: M| #[trigger] parsers.modelling.requires((m,))
        &&& forall|
            b: B,
            n: usize,
            delays: Option<Delays>,
            gains: Option<Vec<Vec<Binary64>>>,
            input: Option<VisInputType>,
            p: SkaBeamParams,
        | #[trigger]
            parsers.beam.requires((b, n, &delays, &gains, input, p))
        &&& forall|
            s: S,
            p: PhaseCentre,
            lst: Binary64,
            lat: Binary64,
            c: Vec<Binary64>,
            b: BO,
        | #[trigger]
            parsers.srclist.requires((s, p, lst, lat, &c, &b))
        &&& forall|l: SL, f: Filters| #[trigger] parsers.filter.requires((l, f))
        &&& forall|o: OutputVisArgs, p: SimulationPlan, autos: bool, file: &str, what: &str| #[trigger]
            parsers.output.requires((o, &p, autos, file, what))
    }

    /// Is this what comes of a source list, filtered, and of an output?
    pub open spec fn with_output<
        BO,
        MP,
        SL,
        OV,
        PF: Fn(PhaseCentre, ArrayPosition, Epoch, Dut1) -> PrecessionInfo,
        MF: Fn(M) -> (bool, MP),
        BF: Fn(
            B,
            usize,
            &Option<Delays>,
            &Option<Vec<Vec<Binary64>>>,
            Option<VisInputType>,
            SkaBeamParams,
        ) -> Result<BO, String>,
        SF: Fn(S, PhaseCentre, Binary64, Binary64, &Vec<Binary64>, &BO) -> Result<SL, String>,
        FF: Fn(SL, Filters) -> SL,
        OF: Fn(OutputVisArgs, &SimulationPlan, bool, &str, &str) -> Result<OV, String>,
    >(
        self,
        context: ObsContext,
        plan: SimulationPlan,
        parsers: Parsers<PF, MF, BF, SF, FF, OF>,
        frame: (Binary64, Binary64),
        modelling_params: MP,
        beam: BO,
        list: SL,
        filtered: SL,
        output: Result<OV, String>,
        r: Result<VisSimulateSkaParams<BO, MP, SL, OV>, VisSimulateSkaError>,
    ) -> bool {
        &&& match plan.filters {
            Some(f) => parsers.filter.ensures((list, f), filtered),
            None => filtered == list,
        }
        &&& parsers.output.ensures(
            (
                self.simulate_args.output_args(),
                &plan,
                WRITE_AUTOS,
                DEFAULT_OUTPUT_VIS_FILENAME,
                OUTPUT_KIND,
            ),
            output,
        )
        &&& match output {
            Err(e) => r == Err::<VisSimulateSkaParams<BO, MP, SL, OV>, VisSimulateSkaError>(
                VisSimulateSkaError::Output(e),
            ),
            Ok(output_vis_params) => {
                &&& r matches Ok(params)
                &&& params.context == context
                &&& params.has_all_tiles(context)
                &&& params.plan == plan
                &&& params.lst_rad == frame.0
                &&& params.latitude_rad == frame.1
                &&& params.beam == beam
                &&& params.modelling_params == modelling_params
                &&& params.source_list == filtered
                &&& params.output_vis_params == output_vis_params
            },
        }
    }

    /// Is this what comes of a beam and a source list?
    pub open spec fn with_source_list<
        BO,
        MP,
        SL,
        OV,
        PF: Fn(PhaseCentre, ArrayPosition, Epoch, Dut1) -> PrecessionInfo,
        MF: Fn(M) -> (bool, MP),
        BF: Fn(
            B,
            usize,
            &Option<Delays>,
            &Option<Vec<Vec<Binary64>>>,
            Option<VisInputType>,
            SkaBeamParams,
        ) -> Result<BO, String>,
        SF: Fn(S, PhaseCentre, Binary64, Binary64, &Vec<Binary64>, &BO) -> Result<SL, String>,
        FF: Fn(SL, Filters) -> SL,
        OF: Fn(OutputVisArgs, &SimulationPlan, bool, &str, &str) -> Result<OV, String>,
    >(
        self,
        context: ObsContext,
        plan: SimulationPlan,
        parsers: Parsers<PF, MF, BF, SF, FF, OF>,
        frame: (Binary64, Binary64),
        modelling_params: MP,
        beam: BO,
        list: Result<SL, String>,
        r: Result<VisSimulateSkaParams<BO, MP, SL, OV>, VisSimulateSkaError>,
    ) -> bool {
        &&& parsers.srclist.ensures(
            (
                self.srclist_args,
                plan.phase_centre,
                frame.0,
                frame.1,
                &plan.coarse_chan_freqs,
                &beam,
            ),
            list,
        )
        &&& match list {
            Err(e) => r == Err::<VisSimulateSkaParams<BO, MP, SL, OV>, VisSimulateSkaError>(
                VisSimulateSkaError::SourceList(e),
            ),
            Ok(list) => exists|filtered: SL, output: Result<OV, String>| #[trigger]
                self.with_output(
                    context,
                    plan,
                    parsers,
                    frame,
                    modelling_params,
                    beam,
                    list,
                    filtered,
                    output,
                    r,
                ),
        }
    }

    /// Is this what comes of a precession, the arguments on modelling and a beam?
    pub open spec fn with_beam<
        BO,
        MP,
        SL,
        OV,
        PF: Fn(PhaseCentre, ArrayPosition, Epoch, Dut1) -> PrecessionInfo,
        MF: Fn(M) -> (bool, MP),
        BF: Fn(
            B,
            usize,
            &Option<Delays>,
            &Option<Vec<Vec<Binary64>>>,
            Option<VisInputType>,
            SkaBeamParams,
        ) -> Result<BO, String>,
        SF: Fn(S, PhaseCentre, Binary64, Binary64, &Vec<Binary64>, &BO) -> Result<SL, String>,
        FF: Fn(SL, Filters) -> SL,
        OF: Fn(OutputVisArgs, &SimulationPlan, bool, &str, &str) -> Result<OV, String>,
    >(
        self,
        context: ObsContext,
        plan: SimulationPlan,
        parsers: Parsers<PF, MF, BF, SF, FF, OF>,
        info: PrecessionInfo,
        modelling: (bool, MP),
        ska: SkaBeamParams,
        beam: Result<BO, String>,
        r: Result<VisSimulateSkaParams<BO, MP, SL, OV>, VisSimulateSkaError>,
    ) -> bool {
        let frame = info.frame(modelling.0);
        &&& parsers.precess.ensures(
            (
                plan.phase_centre,
                plan.array_position,
                instants_of(plan.timestamps)[0],
                plan.dut1,
            ),
            info,
        )
        &&& parsers.modelling.ensures((self.modelling_args,), modelling)
        &&& context.describes(ska, frame.1, plan.middle_freq)
        &&& parsers.beam.ensures(
            (
                self.beam_args,
                plan.num_tiles,
                &context.dipole_delays,
                &context.dipole_gains,
                Some(context.input_data_type),
                ska,
            ),
            beam,
        )
        &&& match beam {
            Err(e) => r == Err::<VisSimulateSkaParams<BO, MP, SL, OV>, VisSimulateSkaError>(
                VisSimulateSkaError::Beam(e),
            ),
            Ok(beam) => exists|list: Result<SL, String>| #[trigger]
                self.with_source_list(context, plan, parsers, frame, modelling.1, beam, list, r),
        }
    }

    /// Is this what comes of a plan?
    pub open spec fn with_plan<
        BO,
        MP,
        SL,
        OV,
        PF: Fn(PhaseCentre, ArrayPosition, Epoch, Dut1) -> PrecessionInfo,
        MF: Fn(M) -> (bool, MP),
        BF: Fn(
            B,
            usize,
            &Option<Delays>,
            &Option<Vec<Vec<Binary64>>>,
            Option<VisInputType>,
            SkaBeamParams,
        ) -> Result<BO, String>,
        SF: Fn(S, PhaseCentre, Binary64, Binary64, &Vec<Binary64>, &BO) -> Result<SL, String>,
        FF: Fn(SL, Filters) -> SL,
        OF: Fn(OutputVisArgs, &SimulationPlan, bool, &str, &str) -> Result<OV, String>,
    >(
        self,
        context: ObsContext,
        plan: SimulationPlan,
        parsers: Parsers<PF, MF, BF, SF, FF, OF>,
        r: Result<VisSimulateSkaParams<BO, MP, SL, OV>, VisSimulateSkaError>,
    ) -> bool {
        exists|
            info: PrecessionInfo,
            modelling: (bool, MP),
            ska: SkaBeamParams,
            beam: Result<BO, String>,
        | #[trigger]
            self.with_beam(context, plan, parsers, info, modelling, ska, beam, r)
    }

    /// Are these the parameters that the arguments ask for, or is this what is
    /// wrong with them? The arguments on the simulation are looked at first,
    /// then those on the beam, the sky model and the output.
    pub open spec fn parsed<
        D: Fn(MiddleFreq) -> Binary64,
        C: Fn(Binary64, Binary64, usize, usize) -> Binary64,
        R: Fn(Binary64) -> Binary64,
        T: Fn(Epoch, Option<Binary64>, Binary64, usize) -> Epoch,
        BO,
        MP,
        SL,
        OV,
        PF: Fn(PhaseCentre, ArrayPosition, Epoch, Dut1) -> PrecessionInfo,
        MF: Fn(M) -> (bool, MP),
        BF: Fn(
            B,
            usize,
            &Option<Delays>,
            &Option<Vec<Vec<Binary64>>>,
            Option<VisInputType>,
            SkaBeamParams,
        ) -> Result<BO, String>,
        SF: Fn(S, PhaseCentre, Binary64, Binary64, &Vec<Binary64>, &BO) -> Result<SL, String>,
        FF: Fn(SL, Filters) -> SL,
        OF: Fn(OutputVisArgs, &SimulationPlan, bool, &str, &str) -> Result<OV, String>,
    >(
        self,
        context: ObsContext,
        numerics: Numerics<D, C, R, T>,
        parsers: Parsers<PF, MF, BF, SF, FF, OF>,
        r: Result<VisSimulateSkaParams<BO, MP, SL, OV>, VisSimulateSkaError>,
    ) -> bool {
        match args_error(self.simulate_args) {
            Some(e) => r matches Err(VisSimulateSkaError::Args(found)) && same_error(found, e),
            None => exists|plan: SimulationPlan|
                #![trigger self.with_plan(context, plan, parsers, r)]
                plan.follows(self.simulate_args, context, numerics) && self.with_plan(
                    context,
                    plan,
                    parsers,
                    r,
                ),
        }
    }

    /// Make sense of the arguments, given what the measurement set tells about
    /// the observation.
    pub fn parse<
        D: Fn(MiddleFreq) -> Binary64,
        C: Fn(Binary64, Binary64, usize, usize) -> Binary64,
        R: Fn(Binary64) -> Binary64,
        T: Fn(Epoch, Option<Binary64>, Binary64, usize) -> Epoch,
        BO,
        MP,
        SL,
        OV,
        PF: Fn(PhaseCentre, ArrayPosition, Epoch, Dut1) -> PrecessionInfo,
        MF: Fn(M) -> (bool, MP),
        BF: Fn(
            B,
            usize,
            &Option<Delays>,
            &Option<Vec<Vec<Binary64>>>,
            Option<VisInputType>,
            SkaBeamParams,
        ) -> Result<BO, String>,
        SF: Fn(S, PhaseCentre, Binary64, Binary64, &Vec<Binary64>, &BO) -> Result<SL, String>,
        FF: Fn(SL, Filters) -> SL,
        OF: Fn(OutputVisArgs, &SimulationPlan, bool, &str, &str) -> Result<OV, String>,
    >(
        self,
        context: ObsContext,
        numerics: &Numerics<D, C, R, T>,
        parsers: &Parsers<PF, MF, BF, SF, FF, OF>,
    ) -> (r: Result<VisSimulateSkaParams<BO, MP, SL, OV>, VisSimulateSkaError>)
        requires
            self.simulate_args.measurement_set is Some,
            numerics.ready(),
            Self::parsers_ready(*parsers),
        ensures
            self.parsed(context, *numerics, *parsers, r),
    {
        let plan: SimulationPlan = match self.simulate_args.plan(&context, numerics) {
            Ok(plan) => plan,
            Err(e) => {
                return Err(VisSimulateSkaError::Args(e));
            },
        };
        let r: Result<VisSimulateSkaParams<BO, MP, SL, OV>, VisSimulateSkaError> = self.parse_plan(
            context,
            plan,
            parsers,
        );
        assert(self.with_plan(context, plan, *parsers, r));
        r
    }

    /// Make sense of the arguments on anything else than the plan.
    fn parse_plan<
        BO,
        MP,
        SL,
        OV,
        PF: Fn(PhaseCentre, ArrayPosition, Epoch, Dut1) -> PrecessionInfo,
        MF: Fn(M) -> (bool, MP),
        BF: Fn(
            B,
            usize,
            &Option<Delays>,
            &Option<Vec<Vec<Binary64>>>,
            Option<VisInputType>,
            SkaBeamParams,
        ) -> Result<BO, String>,
        SF: Fn(S, PhaseCentre, Binary64, Binary64, &Vec<Binary64>, &BO) -> Result<SL, String>,
        FF: Fn(SL, Filters) -> SL,
        OF: Fn(OutputVisArgs, &SimulationPlan, bool, &str, &str) -> Result<OV, String>,
    >(self, context: ObsContext, plan: SimulationPlan, parsers: &Parsers<PF, MF, BF, SF, FF, OF>) -> (r:
        Result<VisSimulateSkaParams<BO, MP, SL, OV>, VisSimulateSkaError>)
        requires
            plan.num_tiles == context.tile_xyzs@.len(),
            Self::parsers_ready(*parsers),
        ensures
            self.with_plan(context, plan, *parsers, r),
    {
        let ghost observed = context;
        let precess: &PF = &parsers.precess;
        let info: PrecessionInfo = precess(
            plan.phase_centre,
            plan.array_position,
            instants_as_vec(&plan.timestamps)[0],
            plan.dut1,
        );
        let parse_modelling: &MF = &parsers.modelling;
        let modelling: (bool, MP) = parse_modelling(self.modelling_args);
        let frame: (Binary64, Binary64) = lst_and_latitude(modelling.0, info);
        let ska: SkaBeamParams = context.ska_beam_params(frame.1, plan.middle_freq);
        let ghost ska_params = ska;
        let ghost parsed_modelling = modelling;
        let (_, modelling_params) = modelling;
        let parse_beam: &BF = &parsers.beam;
        let beam: Result<BO, String> = parse_beam(
            self.beam_args,
            plan.num_tiles,
            &context.dipole_delays,
            &context.dipole_gains,
            Some(context.input_data_type),
            ska,
        );
        let ghost beam_result = beam;
        let r: Result<VisSimulateSkaParams<BO, MP, SL, OV>, VisSimulateSkaError> = match beam {
            Err(e) => Err(VisSimulateSkaError::Beam(e)),
            Ok(beam) => {
                let ghost made = beam;
                let parse_srclist: &SF = &parsers.srclist;
                let list: Result<SL, String> = parse_srclist(
                    self.srclist_args,
                    plan.phase_centre,
                    frame.0,
                    frame.1,
                    &plan.coarse_chan_freqs,
                    &beam,
                );
                let ghost list_result = list;
                let r: Result<VisSimulateSkaParams<BO, MP, SL, OV>, VisSimulateSkaError> = match list {
                    Err(e) => Err(VisSimulateSkaError::SourceList(e)),
                    Ok(list) => {
                        let ghost unfiltered = list;
                        // Apply any filters.
                        let source_list: SL = match plan.filters {
                            Some(filters) => {
                                let filter: &FF = &parsers.filter;
                                filter(list, filters)
                            },
                            None => list,
                        };
                        // Parse the output model vis args like normal output vis
                        // args (we only make the args distinct to make it clear
                        // that these visibilities are not calibrated, just the
                        // model vis).
                        let parse_output: &OF = &parsers.output;
                        let output: Result<OV, String> = parse_output(
                            OutputVisArgs {
                                outputs: self.simulate_args.output_model_files,
                                output_vis_time_average:
                                    self.simulate_args.output_model_time_average,
                                output_vis_freq_average:
                                    self.simulate_args.output_model_freq_average,
                            },
                            &plan,
                            WRITE_AUTOS,
                            DEFAULT_OUTPUT_VIS_FILENAME,
                            OUTPUT_KIND,
                        );
                        let ghost output_result = output;
                        let ghost filtered = source_list;
                        let r: Result<VisSimulateSkaParams<BO, MP, SL, OV>, VisSimulateSkaError> = match output {
                            Err(e) => Err(VisSimulateSkaError::Output(e)),
                            Ok(output_vis_params) => Ok(
                                VisSimulateSkaParams {
                                    tile_xyzs: copy_of(context.tile_xyzs.as_slice()),
                                    tile_names: copy_names(&context.tile_names),
                                    flagged_tiles: HashSet::new(),
                                    context,
                                    plan,
                                    lst_rad: frame.0,
                                    latitude_rad: frame.1,
                                    beam,
                                    modelling_params,
                                    source_list,
                                    output_vis_params,
                                },
                            ),
                        };
                        assert(self.with_output(
                            observed,
                            plan,
                            *parsers,
                            frame,
                            modelling_params,
                            made,
                            unfiltered,
                            filtered,
                            output_result,
                            r,
                        ));
                        r
                    },
                };
                assert(self.with_source_list(
                    observed,
                    plan,
                    *parsers,
                    frame,
                    modelling_params,
                    made,
                    list_result,
                    r,
                ));
                r
            },
        };
        assert(self.with_beam(
            observed,
            plan,
            *parsers,
            info,
            parsed_modelling,
            ska_params,
            beam_result,
            r,
        ));
        r
    }

    /// Is this what comes of running a simulation with these parameters?
    pub open spec fn ran<
        BO,
        MP,
        SL,
        OV,
        F: Fn(VisSimulateSkaParams<BO, MP, SL, OV>) -> Result<(), String>,
    >(
        parsed: Result<VisSimulateSkaParams<BO, MP, SL, OV>, VisSimulateSkaError>,
        dry_run: bool,
        simulate: F,
        r: Result<(), VisSimulateSkaError>,
    ) -> bool {
        match parsed {
            Err(e) => r == Err::<(), VisSimulateSkaError>(e),
            Ok(params) => if dry_run {
                r == Ok::<(), VisSimulateSkaError>(())
            } else {
                exists|done: Result<(), String>|
                    {
                        &&& #[trigger] simulate.ensures((params,), done)
                        &&& r == (match done {
                            Ok(()) => Ok::<(), VisSimulateSkaError>(()),
                            Err(e) => Err(VisSimulateSkaError::Simulation(e)),
                        })
                    }
            },
        }
    }

    /// Make sense of the arguments and run the simulation, unless this is a dry
    /// run. `simulate` runs the simulation; the other parameters are as in
    /// [`Self::parse`].
    pub fn run<
        D: Fn(MiddleFreq) -> Binary64,
        C: Fn(Binary64, Binary64, usize, usize) -> Binary64,
        R: Fn(Binary64) -> Binary64,
        T: Fn(Epoch, Option<Binary64>, Binary64, usize) -> Epoch,
        BO,
        MP,
        SL,
        OV,
        PF: Fn(PhaseCentre, ArrayPosition, Epoch, Dut1) -> PrecessionInfo,
        MF: Fn(M) -> (bool, MP),
        BF: Fn(
            B,
            usize,
            &Option<Delays>,
            &Option<Vec<Vec<Binary64>>>,
            Option<VisInputType>,
            SkaBeamParams,
        ) -> Result<BO, String>,
        SF: Fn(S, PhaseCentre, Binary64, Binary64, &Vec<Binary64>, &BO) -> Result<SL, String>,
        FF: Fn(SL, Filters) -> SL,
        OF: Fn(OutputVisArgs, &SimulationPlan, bool, &str, &str) -> Result<OV, String>,
        F: Fn(VisSimulateSkaParams<BO, MP, SL, OV>) -> Result<(), String>,
    >(
        self,
        context: ObsContext,
        numerics: &Numerics<D, C, R, T>,
        parsers: &Parsers<PF, MF, BF, SF, FF, OF>,
        dry_run: bool,
        simulate: &F,
    ) -> (r: Result<(), VisSimulateSkaError>)
        requires
            self.simulate_args.measurement_set is Some,
            numerics.ready(),
            Self::parsers_ready(*parsers),
            forall|p: VisSimulateSkaParams<BO, MP, SL, OV>| #[trigger] simulate.requires((p,)),
        ensures
            exists|parsed: Result<VisSimulateSkaParams<BO, MP, SL, OV>, VisSimulateSkaError>|
                #![trigger self.parsed(context, *numerics, *parsers, parsed)]
                self.parsed(context, *numerics, *parsers, parsed) && Self::ran(
                    parsed,
                    dry_run,
                    *simulate,
                    r,
                ),
    {
        let parsed: Result<VisSimulateSkaParams<BO, MP, SL, OV>, VisSimulateSkaError> = self.parse(
            context,
            numerics,
            parsers,
        );
        let ghost found = parsed;
        let r: Result<(), VisSimulateSkaError> = match parsed {
            Err(e) => Err(e),
            Ok(params) => {
                if dry_run {
                    Ok(())
                } else {
                    let ghost p = params;
                    let done: Result<(), String> = simulate(params);
                    assert(simulate.ensures((p,), done));
                    match done {
                        Ok(()) => Ok(()),
                        Err(e) => Err(VisSimulateSkaError::Simulation(e)),
                    }
                }
            },
        };
        assert(Self::ran(found, dry_run, *simulate, r));
        r
    }
}

} // verus!
