use detect_range::cli::{CalcArgs, Cli, Commands, GraphArgs, Mode, Request, UsageError};
use detect_range::units::InputUnit;

fn calc(
    hr: Option<f64>,
    hru: Option<InputUnit>,
    ht: Option<f64>,
    htu: Option<InputUnit>,
) -> Result<Mode<f64>, UsageError> {
    Cli { command: Some(Request::Calc { hr, hru, ht, htu }) }.mode()
}

fn graph(hr: Option<f64>, hru: Option<InputUnit>) -> Result<Mode<f64>, UsageError> {
    Cli { command: Some(Request::Graph { hr, hru }) }.mode()
}

#[test]
fn no_operation_falls_back_to_the_dialogue() {
    assert_eq!(Cli::<f64> { command: None }.mode(), Ok(Mode::Interactive));
}

#[test]
fn complete_calc_runs() {
    assert_eq!(
        calc(Some(100.0), Some(InputUnit::M), Some(100.0), Some(InputUnit::M)),
        Ok(Mode::Run(Commands::Calc(CalcArgs {
            hr: 100.0,
            hru: InputUnit::M,
            ht: 100.0,
            htu: InputUnit::M,
        })))
    );
    assert_eq!(
        calc(Some(30.5), Some(InputUnit::M), Some(35000.0), Some(InputUnit::Ft)),
        Ok(Mode::Run(Commands::Calc(CalcArgs {
            hr: 30.5,
            hru: InputUnit::M,
            ht: 35000.0,
            htu: InputUnit::Ft,
        })))
    );
}

#[test]
fn complete_graph_runs() {
    assert_eq!(
        graph(Some(0.0), Some(InputUnit::M)),
        Ok(Mode::Run(Commands::Graph(GraphArgs { hr: 0.0, hru: InputUnit::M })))
    );
    assert_eq!(
        graph(Some(120.0), Some(InputUnit::Ft)),
        Ok(Mode::Run(Commands::Graph(GraphArgs { hr: 120.0, hru: InputUnit::Ft })))
    );
}

#[test]
fn calc_with_radar_height_but_no_radar_unit_is_a_usage_error() {
    let res = calc(Some(100.0), None, Some(100.0), Some(InputUnit::M));
    assert_eq!(res, Err(UsageError::MissingArgument));
    let status = res.unwrap_err().exit_status();
    assert_ne!(status, 0);
    assert_eq!(status, 2);
}

#[test]
fn calc_with_any_flag_missing_is_a_usage_error() {
    let m = Some(InputUnit::M);
    let ft = Some(InputUnit::Ft);
    assert_eq!(calc(None, m, Some(1.0), ft), Err(UsageError::MissingArgument));
    assert_eq!(calc(Some(1.0), None, Some(1.0), ft), Err(UsageError::MissingArgument));
    assert_eq!(calc(Some(1.0), m, None, ft), Err(UsageError::MissingArgument));
    assert_eq!(calc(Some(1.0), m, Some(1.0), None), Err(UsageError::MissingArgument));
    assert_eq!(calc(Some(1.0), m, None, None), Err(UsageError::MissingArgument));
    assert_eq!(calc(None, None, Some(1.0), ft), Err(UsageError::MissingArgument));
    assert_eq!(calc(None, m, None, ft), Err(UsageError::MissingArgument));
}

#[test]
fn calc_named_without_any_flag_is_a_usage_error() {
    assert_eq!(calc(None, None, None, None), Err(UsageError::MissingArgument));
}

#[test]
fn graph_with_a_flag_missing_is_a_usage_error() {
    assert_eq!(graph(Some(10.0), None), Err(UsageError::MissingArgument));
    assert_eq!(graph(None, Some(InputUnit::Ft)), Err(UsageError::MissingArgument));
    assert_eq!(graph(None, None), Err(UsageError::MissingArgument));
}

#[test]
fn usage_error_status_is_not_success() {
    assert_eq!(UsageError::MissingArgument.exit_status(), 2);
}

#[test]
fn complete_keeps_every_flag_in_its_place() {
    let request = Request::Calc {
        hr: Some(1u8),
        hru: Some(InputUnit::Ft),
        ht: Some(2u8),
        htu: Some(InputUnit::M),
    };
    assert_eq!(
        request.complete(),
        Ok(Commands::Calc(CalcArgs { hr: 1, hru: InputUnit::Ft, ht: 2, htu: InputUnit::M }))
    );
    assert_eq!(
        Request::Graph { hr: Some(3u8), hru: Some(InputUnit::Ft) }.complete(),
        Ok(Commands::Graph(GraphArgs { hr: 3, hru: InputUnit::Ft }))
    );
    assert_eq!(
        Request::Graph { hr: Some(3u8), hru: None }.complete(),
        Err(UsageError::MissingArgument)
    );
}
