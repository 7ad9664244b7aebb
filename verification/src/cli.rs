//! Checking the command line before any work is done.
use vstd::prelude::*;

verus! {

/// Why the command line was refused.
#[derive(Debug, Clone, Copy, PartialEq, Eq, Structural)]
pub enum CliProblem {
    /// The input workbook's path could not be resolved.
    UnresolvablePath,
    /// The input and the output workbook are the same file.
    SameInputAndOutput,
    /// The starting water level is not above the dead water level.
    StartNotAboveDeadLevel,
    /// The precision is not greater than zero.
    NonPositivePrecision,
    /// The iteration limit is zero.
    ZeroIterations,
    /// The time step is not greater than zero.
    NonPositiveTimeStep,
}

/// The message shown for each problem.
pub open spec fn problem_message(p: CliProblem) -> Seq<char> {
    match p {
        CliProblem::UnresolvablePath => "无法解析文件路径"@,
        CliProblem::SameInputAndOutput => "输入 Excel 文件路径和输出 Excel 文件路径不能相同"@,
        CliProblem::StartNotAboveDeadLevel => "起调水位必须大于死水位"@,
        CliProblem::NonPositivePrecision => "迭代计算精度必须大于0"@,
        CliProblem::ZeroIterations => "最大迭代次数必须大于0"@,
        CliProblem::NonPositiveTimeStep => "时间步间距必须大于0"@,
    }
}

impl CliProblem {
    /// The message shown to the user.
    pub fn message(&self) -> (s: String)
        ensures
            s@ == problem_message(*self),
    {
        match self {
            CliProblem::UnresolvablePath => "无法解析文件路径".to_owned(),
            CliProblem::SameInputAndOutput => "输入 Excel 文件路径和输出 Excel 文件路径不能相同".to_owned(),
            CliProblem::StartNotAboveDeadLevel => "起调水位必须大于死水位".to_owned(),
            CliProblem::NonPositivePrecision => "迭代计算精度必须大于0".to_owned(),
            CliProblem::ZeroIterations => "最大迭代次数必须大于0".to_owned(),
            CliProblem::NonPositiveTimeStep => "时间步间距必须大于0".to_owned(),
        }
    }
}

/// What is known of the command line once its paths have been resolved and
/// its numbers compared.
#[derive(Debug, Clone, Copy)]
pub struct ArgsCheck {
    /// The input workbook's path resolves to a canonical path.
    pub input_resolved: bool,
    /// The output workbook already exists, its path resolving to a
    /// canonical path; a new output file does not.
    pub output_exists: bool,
    /// Both paths resolve to the same canonical path.
    pub same_file: bool,
    /// The starting water level is not greater than the dead water level
    /// (an incomparable level included).
    pub start_not_above_dead: bool,
    /// The precision is not greater than zero (an incomparable value
    /// included).
    pub precision_not_positive: bool,
    /// The iteration limit.
    pub max_iterations: usize,
    /// The time step is not greater than zero (an incomparable value
    /// included).
    pub time_step_not_positive: bool,
}

/// The first check, in the order input path, same file (only where the
/// output already exists), water levels, precision, iteration limit, time
/// step, that the command line fails.
pub open spec fn first_problem(a: ArgsCheck) -> Option<CliProblem> {
    if !a.input_resolved {
        Some(CliProblem::UnresolvablePath)
    } else if a.output_exists && a.same_file {
        Some(CliProblem::SameInputAndOutput)
    } else if a.start_not_above_dead {
        Some(CliProblem::StartNotAboveDeadLevel)
    } else if a.precision_not_positive {
        Some(CliProblem::NonPositivePrecision)
    } else if a.max_iterations == 0 {
        Some(CliProblem::ZeroIterations)
    } else if a.time_step_not_positive {
        Some(CliProblem::NonPositiveTimeStep)
    } else {
        None
    }
}

/// A command line passes every check: the input resolves, the output is not
/// an existing file that is the input itself, the starting level is above
/// the dead level, the precision and the time step are positive and the
/// iteration limit is not zero.
pub open spec fn accepted(a: ArgsCheck) -> bool {
    &&& a.input_resolved
    &&& !(a.output_exists && a.same_file)
    &&& !a.start_not_above_dead
    &&& !a.precision_not_positive
    &&& a.max_iterations > 0
    &&& !a.time_step_not_positive
}

/// The command line is refused exactly when one of its checks fails, and
/// the problem named is the first failing check: each failing check is
/// reported whatever the checks after it say.
pub proof fn lemma_first_problem(a: ArgsCheck)
    ensures
        first_problem(a) is None <==> accepted(a),
        !a.input_resolved ==> first_problem(a) == Some(CliProblem::UnresolvablePath),
        a.input_resolved && a.output_exists && a.same_file
            ==> first_problem(a) == Some(CliProblem::SameInputAndOutput),
        a.input_resolved && !(a.output_exists && a.same_file) && a.start_not_above_dead
            ==> first_problem(a) == Some(CliProblem::StartNotAboveDeadLevel),
        a.input_resolved && !(a.output_exists && a.same_file) && !a.start_not_above_dead
            && a.precision_not_positive
            ==> first_problem(a) == Some(CliProblem::NonPositivePrecision),
        a.input_resolved && !(a.output_exists && a.same_file) && !a.start_not_above_dead
            && !a.precision_not_positive && a.max_iterations == 0
            ==> first_problem(a) == Some(CliProblem::ZeroIterations),
        a.input_resolved && !(a.output_exists && a.same_file) && !a.start_not_above_dead
            && !a.precision_not_positive && a.max_iterations > 0 && a.time_step_not_positive
            ==> first_problem(a) == Some(CliProblem::NonPositiveTimeStep),
{
}

/// An existing output file that is the input itself is always refused,
/// whatever the other checks say; once the input resolves, that is the
/// problem named.
pub proof fn lemma_same_file_refused(a: ArgsCheck)
    requires
        a.output_exists,
        a.same_file,
    ensures
        !accepted(a),
        first_problem(a) is Some,
        a.input_resolved ==> first_problem(a) == Some(CliProblem::SameInputAndOutput),
{
}

impl ArgsCheck {
    /// Accepts the command line, or names the first check it fails.
    pub fn validate(&self) -> (res: Result<(), CliProblem>)
        ensures
            match first_problem(*self) {
                Some(p) => res == Err::<(), CliProblem>(p),
                None => res is Ok,
            },
            res is Ok <==> accepted(*self),
            !self.input_resolved ==> res == Err::<(), CliProblem>(CliProblem::UnresolvablePath),
            self.input_resolved && self.output_exists && self.same_file
                ==> res == Err::<(), CliProblem>(CliProblem::SameInputAndOutput),
            self.input_resolved && !(self.output_exists && self.same_file) && self.start_not_above_dead
                ==> res == Err::<(), CliProblem>(CliProblem::StartNotAboveDeadLevel),
            self.input_resolved && !(self.output_exists && self.same_file) && !self.start_not_above_dead
                && self.precision_not_positive
                ==> res == Err::<(), CliProblem>(CliProblem::NonPositivePrecision),
            self.input_resolved && !(self.output_exists && self.same_file) && !self.start_not_above_dead
                && !self.precision_not_positive && self.max_iterations == 0
                ==> res == Err::<(), CliProblem>(CliProblem::ZeroIterations),
            self.input_resolved && !(self.output_exists && self.same_file) && !self.start_not_above_dead
                && !self.precision_not_positive && self.max_iterations > 0 && self.time_step_not_positive
                ==> res == Err::<(), CliProblem>(CliProblem::NonPositiveTimeStep),
    {
        if !self.input_resolved {
            return Err(CliProblem::UnresolvablePath);
        }
        if self.output_exists && self.same_file {
            return Err(CliProblem::SameInputAndOutput);
        }
        if self.start_not_above_dead {
            return Err(CliProblem::StartNotAboveDeadLevel);
        }
        if self.precision_not_positive {
            return Err(CliProblem::NonPositivePrecision);
        }
        if self.max_iterations == 0 {
            return Err(CliProblem::ZeroIterations);
        }
        if self.time_step_not_positive {
            return Err(CliProblem::NonPositiveTimeStep);
        }
        Ok(())
    }
}

} // verus!
