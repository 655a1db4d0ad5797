use dlc_manager::test_vectors::{generate_test_params, PayoutKind, TestParams};

#[test]
fn names_of_the_test_vectors() {
    let (_, names) = generate_test_params();
    assert_eq!(
        names,
        vec![
            "enum_single_oracle",
            "enum_3_of_3_oracles",
            "enum_3_of_5_oracles",
            "numerical_hyperbola_1_oracle",
            "numerical_polynomial_1_oracle",
            "numerical_polynomial_3_of_3_oracles",
            "numerical_polynomial_3_of_3_oracles_with_diff",
            "numerical_polynomial_3_of_5_oracles_with_diff",
            "numerical_polynomial_2_of_5_oracles",
            "numerical_polynomial_2_of_5_oracles_with_diff",
            "enum_and_numerical_polynomial_3_of_5_oracles_with_diff",
            "enum_and_numerical_polynomial_5_of_5_oracles_with_diff",
        ]
    );
}

fn params(kind: PayoutKind, nb_oracles: usize, threshold: usize, with_diff: bool) -> TestParams {
    TestParams {
        kind,
        nb_oracles,
        threshold,
        with_diff,
    }
}

#[test]
fn parameters_of_the_test_vectors() {
    let (test_params, names) = generate_test_params();
    assert_eq!(test_params.len(), names.len());
    assert_eq!(
        test_params,
        vec![
            params(PayoutKind::Enumerated, 1, 1, false),
            params(PayoutKind::Enumerated, 3, 3, false),
            params(PayoutKind::Enumerated, 5, 3, false),
            params(PayoutKind::NumericalHyperbola, 1, 1, false),
            params(PayoutKind::NumericalPolynomial, 1, 1, false),
            params(PayoutKind::NumericalPolynomial, 3, 3, false),
            params(PayoutKind::NumericalPolynomial, 3, 3, true),
            params(PayoutKind::NumericalPolynomial, 5, 3, true),
            params(PayoutKind::NumericalPolynomial, 5, 2, false),
            params(PayoutKind::NumericalPolynomial, 5, 2, true),
            params(PayoutKind::EnumeratedAndNumerical, 5, 3, true),
            params(PayoutKind::EnumeratedAndNumerical, 5, 5, true),
        ]
    );
}

#[test]
fn thresholds_do_not_exceed_the_oracles() {
    let (test_params, _) = generate_test_params();
    for params in test_params {
        assert!(1 <= params.threshold);
        assert!(params.threshold <= params.nb_oracles);
    }
}
