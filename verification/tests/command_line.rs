use flood_routing::cli::{ArgsCheck, CliProblem};

fn good() -> ArgsCheck {
    ArgsCheck {
        input_resolved: true,
        output_exists: true,
        same_file: false,
        start_not_above_dead: false,
        precision_not_positive: false,
        max_iterations: 30,
        time_step_not_positive: false,
    }
}

#[test]
fn accepts_good_arguments() {
    assert_eq!(good().validate(), Ok(()));
}

#[test]
fn each_check_in_turn() {
    let mut a = good();
    a.time_step_not_positive = true;
    assert_eq!(a.validate(), Err(CliProblem::NonPositiveTimeStep));
    a.max_iterations = 0;
    assert_eq!(a.validate(), Err(CliProblem::ZeroIterations));
    a.precision_not_positive = true;
    assert_eq!(a.validate(), Err(CliProblem::NonPositivePrecision));
    a.start_not_above_dead = true;
    assert_eq!(a.validate(), Err(CliProblem::StartNotAboveDeadLevel));
    a.same_file = true;
    assert_eq!(a.validate(), Err(CliProblem::SameInputAndOutput));
    a.input_resolved = false;
    assert_eq!(a.validate(), Err(CliProblem::UnresolvablePath));
    let mut b = good();
    b.input_resolved = false;
    assert_eq!(b.validate(), Err(CliProblem::UnresolvablePath));
}

#[test]
fn new_output_file_is_accepted() {
    let mut a = good();
    a.output_exists = false;
    a.same_file = false;
    assert_eq!(a.validate(), Ok(()));
}

#[test]
fn messages() {
    assert_eq!(CliProblem::UnresolvablePath.message(), "无法解析文件路径");
    assert_eq!(
        CliProblem::SameInputAndOutput.message(),
        "输入 Excel 文件路径和输出 Excel 文件路径不能相同"
    );
    assert_eq!(CliProblem::StartNotAboveDeadLevel.message(), "起调水位必须大于死水位");
    assert_eq!(CliProblem::NonPositivePrecision.message(), "迭代计算精度必须大于0");
    assert_eq!(CliProblem::ZeroIterations.message(), "最大迭代次数必须大于0");
    assert_eq!(CliProblem::NonPositiveTimeStep.message(), "时间步间距必须大于0");
}
