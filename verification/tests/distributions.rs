use statistical_exporter::CmdArgs;
use statistical_exporter::ExporterError;
use statistical_exporter::binomial_number;
use statistical_exporter::chi_number;
use statistical_exporter::gauss_number;
use statistical_exporter::uniform_number;

fn gauss_draws(mean: i32, dev: i32, n: u32) -> Vec<i64> {
    let normal = rand_distr::Normal::new(mean as f64, dev as f64).unwrap();
    (0..n)
        .map(|_| {
            let x: f64 = rand_distr::Distribution::sample(&normal, &mut rand::rng());
            (x * 1_000_000.0) as i64
        })
        .collect()
}

fn chi_draws(n: u32) -> Vec<u64> {
    let chi = rand_distr::ChiSquared::new(1.0f64).unwrap();
    (0..n)
        .map(|_| {
            let x: f64 = rand_distr::Distribution::sample(&chi, &mut rand::rng());
            (x * 1_000_000.0) as u64
        })
        .collect()
}

#[test]
fn binomial_test_count_of_elements() {
    let args = CmdArgs {
        port: 7878,
        elements: 20,
        binding_address: "127.0.0.1".to_string(),
        mean_value: 10,
        p_millionths: 500_000,
        deviation_value: 100,
        distribution: "binomial".to_string(),
        prefix: "statistical".to_string(),
        dry_run: false,
    };

    assert_eq!(binomial_number(&args).unwrap().len(), 20);
}

#[test]
fn test_lower_limit() {
    let args = CmdArgs {
        port: 7878,
        elements: 20,
        binding_address: "127.0.0.1".to_string(),
        mean_value: 10,
        p_millionths: 500_000,
        deviation_value: 100,
        distribution: "chisquared".to_string(),
        prefix: "statistical".to_string(),
        dry_run: false,
    };

    let aux = chi_draws(20);
    assert!(chi_number(&args, &aux).len() >= args.mean_value as usize);
}

#[test]
fn chisquared_test_count_of_elements() {
    let args = CmdArgs {
        port: 7878,
        elements: 20,
        binding_address: "127.0.0.1".to_string(),
        mean_value: 10,
        p_millionths: 500_000,
        deviation_value: 100,
        distribution: "chisqaured".to_string(),
        prefix: "statistical".to_string(),
        dry_run: false,
    };

    let aux = chi_draws(20);
    assert_eq!(chi_number(&args, &aux).len(), 20);
}

#[test]
fn gauss_test_number_in_range() {
    let args = CmdArgs {
        port: 7878,
        elements: 1,
        binding_address: "127.0.0.1".to_string(),
        mean_value: 55,
        p_millionths: 500_000,
        deviation_value: 10,
        distribution: "gauss".to_string(),
        prefix: "statistical".to_string(),
        dry_run: false,
    };

    let min_value: i128 = 10;
    let max_value: i128 = 100;
    let draws: Vec<i64> = vec![55_000_000];
    let sequence = gauss_number(&args, &draws).unwrap();
    let number = sequence[0];

    assert!(number < max_value * 1_000_000);
    assert!(number > min_value * 1_000_000);
}

#[test]
fn gauss_test_count_of_elements() {
    let args = CmdArgs {
        port: 7878,
        elements: 20,
        binding_address: "127.0.0.1".to_string(),
        mean_value: 10,
        p_millionths: 500_000,
        deviation_value: 100,
        distribution: "gauss".to_string(),
        prefix: "statistical".to_string(),
        dry_run: false,
    };

    let draws = gauss_draws(args.mean_value, args.deviation_value, args.elements);
    assert_eq!(gauss_number(&args, &draws).unwrap().len(), 20);
}

#[test]
fn uniform_test_number_in_range() {
    let args = CmdArgs {
        port: 7878,
        elements: 1,
        binding_address: "127.0.0.1".to_string(),
        mean_value: 50,
        p_millionths: 500_000,
        deviation_value: 10,
        distribution: "uniform".to_string(),
        prefix: "statistical".to_string(),
        dry_run: false,
    };

    let sequence = uniform_number(&args).unwrap();
    let number = sequence[0];

    assert!(number < ((args.mean_value + args.deviation_value) as i128) * 1_000_000);
    assert!(number >= ((args.mean_value - args.deviation_value) as i128) * 1_000_000);
}

#[test]
fn uniform_test_count_of_elements() {
    let args = CmdArgs {
        port: 7878,
        elements: 20,
        binding_address: "127.0.0.1".to_string(),
        mean_value: 50,
        p_millionths: 500_000,
        deviation_value: 10,
        distribution: "uniform".to_string(),
        prefix: "statistical".to_string(),
        dry_run: false,
    };

    assert_eq!(uniform_number(&args).unwrap().len(), 20);
}

#[test]
fn uniform_scenario_twenty_values_in_range() {
    let args = CmdArgs {
        port: 7878,
        elements: 20,
        binding_address: "127.0.0.1".to_string(),
        mean_value: 50,
        p_millionths: 500_000,
        deviation_value: 10,
        distribution: "uniform".to_string(),
        prefix: "statistical".to_string(),
        dry_run: false,
    };

    let sequence = uniform_number(&args).unwrap();
    assert_eq!(sequence.len(), 20);
    for v in sequence {
        assert!(v >= 40_000_000);
        assert!(v < 60_000_000);
        assert_eq!(v % 1_000_000, 0);
    }
}

#[test]
fn binomial_scenario_five_values_in_range() {
    let args = CmdArgs {
        port: 7878,
        elements: 5,
        binding_address: "127.0.0.1".to_string(),
        mean_value: 10,
        p_millionths: 500_000,
        deviation_value: 10,
        distribution: "binomial".to_string(),
        prefix: "statistical".to_string(),
        dry_run: false,
    };

    let sequence = binomial_number(&args).unwrap();
    assert_eq!(sequence.len(), 5);
    for v in sequence {
        assert!(v >= 0);
        assert!(v <= 10_000_000);
        assert_eq!(v % 1_000_000, 0);
    }
}

#[test]
fn binomial_certain_success() {
    let args = CmdArgs {
        port: 7878,
        elements: 4,
        binding_address: "127.0.0.1".to_string(),
        mean_value: 7,
        p_millionths: 1_000_000,
        deviation_value: 10,
        distribution: "binomial".to_string(),
        prefix: "statistical".to_string(),
        dry_run: false,
    };

    for v in binomial_number(&args).unwrap() {
        assert_eq!(v, 7_000_000);
    }
}

#[test]
fn binomial_certain_failure() {
    let args = CmdArgs {
        port: 7878,
        elements: 4,
        binding_address: "127.0.0.1".to_string(),
        mean_value: 7,
        p_millionths: 0,
        deviation_value: 10,
        distribution: "binomial".to_string(),
        prefix: "statistical".to_string(),
        dry_run: false,
    };

    for v in binomial_number(&args).unwrap() {
        assert_eq!(v, 0);
    }
}

#[test]
fn chi_exact_transform() {
    let args = CmdArgs {
        port: 7878,
        elements: 2,
        binding_address: "127.0.0.1".to_string(),
        mean_value: 10,
        p_millionths: 500_000,
        deviation_value: 10,
        distribution: "chisquared".to_string(),
        prefix: "statistical".to_string(),
        dry_run: false,
    };

    let aux: Vec<u64> = vec![0, 2_500_000];
    let values = chi_number(&args, &aux);
    assert_eq!(values, vec![10_000_000, 35_000_000]);
    for v in values {
        assert!(v >= (args.mean_value as i128) * 1_000_000);
    }
}

#[test]
fn gauss_hands_draws_through() {
    let args = CmdArgs {
        port: 7878,
        elements: 2,
        binding_address: "127.0.0.1".to_string(),
        mean_value: 0,
        p_millionths: 500_000,
        deviation_value: 1,
        distribution: "gaussian".to_string(),
        prefix: "statistical".to_string(),
        dry_run: false,
    };

    let draws: Vec<i64> = vec![1_500_000, -2_000_000];
    let values = gauss_number(&args, &draws).unwrap();
    assert_eq!(values, vec![1_500_000, -2_000_000]);
}

#[test]
fn binomial_rejects_negative_trials() {
    let args = CmdArgs {
        port: 7878,
        elements: 2,
        binding_address: "127.0.0.1".to_string(),
        mean_value: -1,
        p_millionths: 500_000,
        deviation_value: 10,
        distribution: "binomial".to_string(),
        prefix: "statistical".to_string(),
        dry_run: false,
    };

    assert_eq!(binomial_number(&args), Err(ExporterError::InvalidParameter));
}

#[test]
fn binomial_rejects_out_of_range_probability() {
    let args = CmdArgs {
        port: 7878,
        elements: 2,
        binding_address: "127.0.0.1".to_string(),
        mean_value: 10,
        p_millionths: 1_500_000,
        deviation_value: 10,
        distribution: "binomial".to_string(),
        prefix: "statistical".to_string(),
        dry_run: false,
    };

    assert_eq!(binomial_number(&args), Err(ExporterError::InvalidParameter));
}

#[test]
fn uniform_rejects_empty_interval() {
    let args = CmdArgs {
        port: 7878,
        elements: 2,
        binding_address: "127.0.0.1".to_string(),
        mean_value: 50,
        p_millionths: 500_000,
        deviation_value: 0,
        distribution: "uniform".to_string(),
        prefix: "statistical".to_string(),
        dry_run: false,
    };

    assert_eq!(uniform_number(&args), Err(ExporterError::InvalidParameter));
}

#[test]
fn gauss_rejects_negative_deviation() {
    let args = CmdArgs {
        port: 7878,
        elements: 2,
        binding_address: "127.0.0.1".to_string(),
        mean_value: 50,
        p_millionths: 500_000,
        deviation_value: -1,
        distribution: "gaussian".to_string(),
        prefix: "statistical".to_string(),
        dry_run: false,
    };

    let draws: Vec<i64> = vec![0, 0];
    assert_eq!(gauss_number(&args, &draws), Err(ExporterError::InvalidParameter));
}
