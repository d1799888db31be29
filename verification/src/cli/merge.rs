//! Arguments from the command line and from a file.

use std::path::PathBuf;
use vstd::prelude::*;

use crate::binary64::Binary64;

verus! {

/// `std::path::PathBuf`: a path, carried along as it is.
#[verifier::external_type_specification]
#[verifier::external_body]
pub struct ExPathBuf(PathBuf);

/// Arguments of SKA simulations.
#[derive(Debug)]
pub struct VisSimulateSkaCliArgs {
    /// Path to the measurement set.
    pub measurement_set: Option<PathBuf>,

    /// Use this value as the DUT1 \[seconds\].
    pub dut1: Option<Binary64>,

    /// Use a DUT1 value of 0 seconds rather than what is in the measurement
    /// set.
    pub ignore_dut1: bool,

    /// The phase centre right ascension \[degrees\]. If this is not specified,
    /// then the phase centre of the measurement set is used.
    pub ra: Option<Binary64>,

    /// The phase centre declination \[degrees\]. If this is not specified, then
    /// the phase centre of the measurement set is used.
    pub dec: Option<Binary64>,

    /// The total number of fine channels in the observation.
    pub num_fine_channels: Option<usize>,

    /// The fine-channel resolution \[kHz\].
    pub freq_res: Option<Binary64>,

    /// The centroid frequency of the simulation \[MHz\]. If this is not
    /// specified, then that of the measurement set is used.
    pub middle_freq: Option<Binary64>,

    /// The number of time steps from the start of the measurement set on. If this
    /// is not specified, then there are 14.
    pub num_timesteps: Option<usize>,

    /// The time resolution \[seconds\]. If this is not specified, then it is 8.
    pub time_res: Option<Binary64>,

    /// The time offset from the start of the measurement set \[seconds\].
    pub time_offset: Option<Binary64>,

    /// Longitude \[degrees\], latitude \[degrees\] and height \[metres\] of the
    /// array.
    pub array_position: Option<Vec<Binary64>>,

    /// Paths to the output visibility files.
    pub output_model_files: Option<Vec<PathBuf>>,

    /// When writing out model visibilities, average this many timesteps
    /// together.
    pub output_model_time_average: Option<String>,

    /// When writing out model visibilities, average this many fine freq.
    /// channels together.
    pub output_model_freq_average: Option<String>,

    /// Remove any "point" components from the input sky model.
    pub filter_points: bool,

    /// Remove any "gaussian" components from the input sky model.
    pub filter_gaussians: bool,

    /// Remove any "shapelet" components from the input sky model.
    pub filter_shapelets: bool,
}

/// The first value that was specified, if any was.
pub open spec fn first_specified<T>(a: Option<T>, b: Option<T>) -> Option<T> {
    match a {
        Some(_) => a,
        None => b,
    }
}

fn first_of<T>(a: Option<T>, b: Option<T>) -> (r: Option<T>)
    ensures
        r == first_specified(a, b),
{
    match a {
        Some(v) => Some(v),
        None => b,
    }
}

impl VisSimulateSkaCliArgs {
    /// No arguments.
    pub open spec fn unspecified() -> Self {
        VisSimulateSkaCliArgs {
            measurement_set: None,
            dut1: None,
            ignore_dut1: false,
            ra: None,
            dec: None,
            num_fine_channels: None,
            freq_res: None,
            middle_freq: None,
            num_timesteps: None,
            time_res: None,
            time_offset: None,
            array_position: None,
            output_model_files: None,
            output_model_time_average: None,
            output_model_freq_average: None,
            filter_points: false,
            filter_gaussians: false,
            filter_shapelets: false,
        }
    }

    /// These arguments, with those of `other` where nothing was specified.
    pub open spec fn merged(self, other: Self) -> Self {
        VisSimulateSkaCliArgs {
            measurement_set: first_specified(self.measurement_set, other.measurement_set),
            dut1: first_specified(self.dut1, other.dut1),
            ignore_dut1: self.ignore_dut1 || other.ignore_dut1,
            ra: first_specified(self.ra, other.ra),
            dec: first_specified(self.dec, other.dec),
            num_fine_channels: first_specified(self.num_fine_channels, other.num_fine_channels),
            freq_res: first_specified(self.freq_res, other.freq_res),
            middle_freq: first_specified(self.middle_freq, other.middle_freq),
            num_timesteps: first_specified(self.num_timesteps, other.num_timesteps),
            time_res: first_specified(self.time_res, other.time_res),
            time_offset: first_specified(self.time_offset, other.time_offset),
            array_position: first_specified(self.array_position, other.array_position),
            output_model_files: first_specified(self.output_model_files, other.output_model_files),
            output_model_time_average: first_specified(
                self.output_model_time_average,
                other.output_model_time_average,
            ),
            output_model_freq_average: first_specified(
                self.output_model_freq_average,
                other.output_model_freq_average,
            ),
            filter_points: self.filter_points || other.filter_points,
            filter_gaussians: self.filter_gaussians || other.filter_gaussians,
            filter_shapelets: self.filter_shapelets || other.filter_shapelets,
        }
    }

    /// These arguments, with those of `other` where nothing was specified.
    pub fn merge(self, other: Self) -> (r: Self)
        ensures
            r == self.merged(other),
    {
        VisSimulateSkaCliArgs {
            measurement_set: first_of(self.measurement_set, other.measurement_set),
            dut1: first_of(self.dut1, other.dut1),
            ignore_dut1: self.ignore_dut1 || other.ignore_dut1,
            ra: first_of(self.ra, other.ra),
            dec: first_of(self.dec, other.dec),
            num_fine_channels: first_of(self.num_fine_channels, other.num_fine_channels),
            freq_res: first_of(self.freq_res, other.freq_res),
            middle_freq: first_of(self.middle_freq, other.middle_freq),
            num_timesteps: first_of(self.num_timesteps, other.num_timesteps),
            time_res: first_of(self.time_res, other.time_res),
            time_offset: first_of(self.time_offset, other.time_offset),
            array_position: first_of(self.array_position, other.array_position),
            output_model_files: first_of(self.output_model_files, other.output_model_files),
            output_model_time_average: first_of(
                self.output_model_time_average,
                other.output_model_time_average,
            ),
            output_model_freq_average: first_of(
                self.output_model_freq_average,
                other.output_model_freq_average,
            ),
            filter_points: self.filter_points || other.filter_points,
            filter_gaussians: self.filter_gaussians || other.filter_gaussians,
            filter_shapelets: self.filter_shapelets || other.filter_shapelets,
        }
    }
}

impl Default for VisSimulateSkaCliArgs {
    /// No arguments.
    fn default() -> (r: Self)
        ensures
            r == VisSimulateSkaCliArgs::unspecified(),
    {
        VisSimulateSkaCliArgs {
            measurement_set: None,
            dut1: None,
            ignore_dut1: false,
            ra: None,
            dec: None,
            num_fine_channels: None,
            freq_res: None,
            middle_freq: None,
            num_timesteps: None,
            time_res: None,
            time_offset: None,
            array_position: None,
            output_model_files: None,
            output_model_time_average: None,
            output_model_freq_average: None,
            filter_points: false,
            filter_gaussians: false,
            filter_shapelets: false,
        }
    }
}

/// Merging with no arguments changes nothing, on either side.
pub proof fn lemma_merge_with_nothing(args: VisSimulateSkaCliArgs)
    ensures
        args.merged(VisSimulateSkaCliArgs::unspecified()) == args,
        VisSimulateSkaCliArgs::unspecified().merged(args) == args,
{
}

/// It does not matter how three sets of arguments are grouped.
pub proof fn lemma_merge_is_associative(
    a: VisSimulateSkaCliArgs,
    b: VisSimulateSkaCliArgs,
    c: VisSimulateSkaCliArgs,
)
    ensures
        a.merged(b).merged(c) == a.merged(b.merged(c)),
{
}

/// What was merged once needs no merging again: the arguments that win stay, and
/// the ones that were merged in add nothing more.
pub proof fn lemma_merge_again(a: VisSimulateSkaCliArgs, b: VisSimulateSkaCliArgs)
    ensures
        a.merged(a) == a,
        a.merged(b).merged(b) == a.merged(b),
        a.merged(a.merged(b)) == a.merged(b),
{
}

/// All arguments of SKA simulations: those on the beam, the modelling, the sky
/// model and the simulation.
#[derive(Debug)]
pub struct VisSimulateSkaArgs<B, M, S> {
    /// The file that more arguments are in.
    pub args_file: Option<PathBuf>,
    pub beam_args: B,
    pub modelling_args: M,
    pub srclist_args: S,
    pub simulate_args: VisSimulateSkaCliArgs,
}

impl<B, M, S> VisSimulateSkaArgs<B, M, S> {
    /// Are these the arguments of the command line and of the file together?
    pub open spec fn consolidates<
        FB: Fn(B, B) -> B,
        FM: Fn(M, M) -> M,
        FS: Fn(S, S) -> S,
    >(self, cli: Self, file: Self, beam: FB, modelling: FM, srclist: FS) -> bool {
        &&& self.args_file is None
        &&& beam.ensures((cli.beam_args, file.beam_args), self.beam_args)
        &&& modelling.ensures((cli.modelling_args, file.modelling_args), self.modelling_args)
        &&& srclist.ensures((cli.srclist_args, file.srclist_args), self.srclist_args)
        &&& self.simulate_args == cli.simulate_args.merged(file.simulate_args)
    }

    /// Both command-line and file arguments overlap in terms of what is
    /// available; this function consolidates everything that was specified into
    /// a single struct. Where applicable, it will prefer CLI parameters over
    /// those in the file.
    ///
    /// `read` reads the arguments file; the others merge the arguments on the
    /// beam, the modelling and the sky model, preferring the first.
    ///
    /// This function should only ever merge arguments, and not try to make
    /// sense of them.
    pub fn merge<
        E,
        R: Fn(PathBuf) -> Result<VisSimulateSkaArgs<B, M, S>, E>,
        FB: Fn(B, B) -> B,
        FM: Fn(M, M) -> M,
        FS: Fn(S, S) -> S,
    >(self, read: &R, beam: &FB, modelling: &FM, srclist: &FS) -> (r: Result<Self, E>)
        requires
            self.args_file matches Some(path) ==> read.requires((path,)),
            forall|a: B, b: B| #[trigger] beam.requires((a, b)),
            forall|a: M, b: M| #[trigger] modelling.requires((a, b)),
            forall|a: S, b: S| #[trigger] srclist.requires((a, b)),
        ensures
            match self.args_file {
                None => r == Ok::<Self, E>(self),
                Some(path) => exists|file: Result<Self, E>|
                    {
                        &&& #[trigger] read.ensures((path,), file)
                        &&& match file {
                            Err(e) => r == Err::<Self, E>(e),
                            Ok(file) => r matches Ok(args) && args.consolidates(
                                self,
                                file,
                                *beam,
                                *modelling,
                                *srclist,
                            ),
                        }
                    },
            },
    {
        let cli_args: Self = self;
        match cli_args.args_file {
            None => Ok(
                VisSimulateSkaArgs {
                    args_file: None,
                    beam_args: cli_args.beam_args,
                    modelling_args: cli_args.modelling_args,
                    srclist_args: cli_args.srclist_args,
                    simulate_args: cli_args.simulate_args,
                },
            ),
            Some(arg_file) => {
                let read_args: Result<Self, E> = read(arg_file);
                match read_args {
                    Err(e) => Err(e),
                    Ok(file) => {
                        // Merge all the arguments, preferring the CLI args when
                        // available.
                        let merged: Self = VisSimulateSkaArgs {
                            args_file: None,
                            beam_args: beam(cli_args.beam_args, file.beam_args),
                            modelling_args: modelling(
                                cli_args.modelling_args,
                                file.modelling_args,
                            ),
                            srclist_args: srclist(cli_args.srclist_args, file.srclist_args),
                            simulate_args: cli_args.simulate_args.merge(file.simulate_args),
                        };
                        assert(merged.consolidates(self, file, *beam, *modelling, *srclist));
                        Ok(merged)
                    },
                }
            },
        }
    }
}

} // verus!
