use statistical_exporter::CmdArgs;
use statistical_exporter::evaluate_args;
use statistical_exporter::evaluate_binding_address;
use statistical_exporter::evaluate_pvalue;

fn args_with(binding_address: &str, p_millionths: i64) -> CmdArgs {
    CmdArgs {
        port: 7878,
        binding_address: binding_address.to_string(),
        mean_value: 100,
        p_millionths,
        deviation_value: 10,
        elements: 10,
        distribution: "all".to_string(),
        prefix: "statistical".to_string(),
        dry_run: false,
    }
}

#[test]
fn test_evaluate_binding_address_ok() {
    assert!(evaluate_binding_address("123.56.89.255".to_string()).is_ok());
}

#[test]
fn test_evaluate_binding_address_err() {
    assert!(evaluate_binding_address("".to_string()).is_err());
    assert!(evaluate_binding_address("123".to_string()).is_err());
    assert!(evaluate_binding_address("abcdesf".to_string()).is_err());
    assert!(evaluate_binding_address("256.100.2.255".to_string()).is_err());
}

#[test]
fn test_pvalue_ok() {
    assert!(evaluate_pvalue(200_000).is_ok());
}

#[test]
fn test_pvalue_err() {
    assert!(evaluate_pvalue(1_200_000).is_err());
    assert!(evaluate_pvalue(-200_000).is_err());
}

#[test]
fn binding_address_corner_cases() {
    assert!(evaluate_binding_address("0.0.0.0".to_string()).is_ok());
    assert!(evaluate_binding_address("255.255.255.255".to_string()).is_ok());
    assert!(evaluate_binding_address("127.0.0.1".to_string()).is_ok());
    assert!(evaluate_binding_address("01.2.3.4".to_string()).is_err());
    assert!(evaluate_binding_address("1.2.3.4.5".to_string()).is_err());
    assert!(evaluate_binding_address("1.2.3.4a".to_string()).is_err());
    assert!(evaluate_binding_address("1.2.3.".to_string()).is_err());
    assert!(evaluate_binding_address(".1.2.3.4".to_string()).is_err());
    assert!(evaluate_binding_address("1.2.3.256".to_string()).is_err());
}

#[test]
fn evaluate_args_accepts_valid_configuration() {
    assert_eq!(evaluate_args(&args_with("127.0.0.1", 500_000)), Ok(true));
}

#[test]
fn evaluate_args_rejects_out_of_range_probability() {
    assert!(evaluate_args(&args_with("127.0.0.1", 1_500_000)).is_err());
}

#[test]
fn evaluate_args_rejects_bad_address() {
    assert!(evaluate_args(&args_with("localhost", 500_000)).is_err());
}
