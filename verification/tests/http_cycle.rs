use statistical_exporter::AuxDraws;
use statistical_exporter::CmdArgs;
use statistical_exporter::ExporterError;
use statistical_exporter::get_metrics;
use statistical_exporter::handle_request;
use statistical_exporter::is_metrics_request;

fn all_args() -> CmdArgs {
    CmdArgs {
        port: 7878,
        elements: 3,
        binding_address: "127.0.0.1".to_string(),
        mean_value: 10,
        p_millionths: 500_000,
        deviation_value: 5,
        distribution: "all".to_string(),
        prefix: "statistical".to_string(),
        dry_run: false,
    }
}

fn zero_aux(elements: u32) -> AuxDraws {
    AuxDraws {
        gauss_micros: vec![0; elements as usize],
        chi_micros: vec![0; elements as usize],
    }
}

#[test]
fn recognizes_the_metrics_request_line() {
    assert!(is_metrics_request(b"GET /metrics HTTP/1.1\r\n"));
    assert!(is_metrics_request(b"GET /metrics HTTP/1.1\r\nHost: example\r\n\r\n"));
    assert!(!is_metrics_request(b"GET /metrics HTTP/1.0\r\n"));
    assert!(!is_metrics_request(b"GET /metrics HTTP/1.1"));
    assert!(!is_metrics_request(b"POST /metrics HTTP/1.1\r\n"));
    assert!(!is_metrics_request(b""));
}

#[test]
fn metrics_request_served_with_document() {
    let args = all_args();
    let response = handle_request(b"GET /metrics HTTP/1.1\r\nHost: x\r\n\r\n", &args, &zero_aux(3));
    assert!(response.starts_with("HTTP/1.1 200 OK"));
    let body = response.split("\r\n\r\n").nth(1).unwrap();
    assert!(body.lines().any(|line| line.starts_with("statistical_scrape_timestamp_msec")));
    assert!(body.lines().any(|line| line.starts_with("statistical_value_gaussian")));
}

#[test]
fn other_request_line_is_not_found() {
    let args = all_args();
    let response = handle_request(b"GET /favicon.ico HTTP/1.1\r\n", &args, &zero_aux(3));
    assert!(response.starts_with("HTTP/1.1 404 NOT FOUND"));
    assert_eq!(response, "HTTP/1.1 404 NOT FOUND\r\n\r\n404 not found");
    assert_eq!(response.split("\r\n\r\n").nth(1).unwrap(), "404 not found");
}

#[test]
fn unknown_distribution_is_served_error() {
    let mut args = all_args();
    args.distribution = "poisson".to_string();
    let response = handle_request(b"GET /metrics HTTP/1.1\r\n", &args, &zero_aux(3));
    assert!(response.starts_with("HTTP/1.1 500 Internal Server Error"));
    assert!(response.contains("distribution is not supported"));
}

#[test]
fn invalid_parameter_is_served_error() {
    let mut args = all_args();
    args.p_millionths = 2_000_000;
    let response = handle_request(b"GET /metrics HTTP/1.1\r\n", &args, &zero_aux(3));
    assert!(response.starts_with("HTTP/1.1 500 Internal Server Error"));
    assert!(response.contains("invalid distribution parameter"));
}

#[test]
fn get_metrics_reports_unknown_distribution() {
    let mut args = all_args();
    args.distribution = "poisson".to_string();
    assert_eq!(
        get_metrics(&args, &zero_aux(3)),
        Err(ExporterError::UnsupportedDistribution)
    );
}

#[test]
fn get_metrics_document_has_every_family() {
    let args = all_args();
    let doc = get_metrics(&args, &zero_aux(3)).unwrap();
    for name in [
        "statistical_value_gaussian",
        "statistical_value_uniform",
        "statistical_value_chisquared",
        "statistical_value_binomial",
        "statistical_scrape_collector_duration_seconds",
        "statistical_scrape_timestamp_msec",
    ] {
        assert!(doc.contains(&format!("# TYPE {} gauge", name)));
    }
}
