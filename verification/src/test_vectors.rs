//! The plan of the test vectors: which contracts the messages of a test vector are made for.

use vstd::prelude::*;

verus! {

/// How the payout of a contract depends on what the oracles attest.
#[derive(Debug, Clone, Copy, PartialEq, Eq, Structural)]
pub enum PayoutKind {
    /// One payout for each of the outcomes that the oracles can name.
    Enumerated,
    /// A numerical outcome whose payout follows a hyperbola.
    NumericalHyperbola,
    /// A numerical outcome whose payout follows a polynomial.
    NumericalPolynomial,
    /// An enumerated and a numerical outcome, the latter with a polynomial payout.
    EnumeratedAndNumerical,
}

/// The parameters of the contract of one test vector.
#[derive(Debug, Clone, Copy, PartialEq, Eq, Structural)]
pub struct TestParams {
    /// How the payout depends on the outcome.
    pub kind: PayoutKind,
    /// The number of oracles that attest the outcome.
    pub nb_oracles: usize,
    /// The number of oracles that must agree.
    pub threshold: usize,
    /// Whether the oracles may differ in the numerical outcome that they attest.
    pub with_diff: bool,
}

/// The parameters of the test vectors, in the order in which the vectors are generated.
pub open spec fn test_params_plan() -> Seq<TestParams> {
    seq![
        TestParams { kind: PayoutKind::Enumerated, nb_oracles: 1, threshold: 1, with_diff: false },
        TestParams { kind: PayoutKind::Enumerated, nb_oracles: 3, threshold: 3, with_diff: false },
        TestParams { kind: PayoutKind::Enumerated, nb_oracles: 5, threshold: 3, with_diff: false },
        TestParams {
            kind: PayoutKind::NumericalHyperbola,
            nb_oracles: 1,
            threshold: 1,
            with_diff: false,
        },
        TestParams {
            kind: PayoutKind::NumericalPolynomial,
            nb_oracles: 1,
            threshold: 1,
            with_diff: false,
        },
        TestParams {
            kind: PayoutKind::NumericalPolynomial,
            nb_oracles: 3,
            threshold: 3,
            with_diff: false,
        },
        TestParams {
            kind: PayoutKind::NumericalPolynomial,
            nb_oracles: 3,
            threshold: 3,
            with_diff: true,
        },
        TestParams {
            kind: PayoutKind::NumericalPolynomial,
            nb_oracles: 5,
            threshold: 3,
            with_diff: true,
        },
        TestParams {
            kind: PayoutKind::NumericalPolynomial,
            nb_oracles: 5,
            threshold: 2,
            with_diff: false,
        },
        TestParams {
            kind: PayoutKind::NumericalPolynomial,
            nb_oracles: 5,
            threshold: 2,
            with_diff: true,
        },
        TestParams {
            kind: PayoutKind::EnumeratedAndNumerical,
            nb_oracles: 5,
            threshold: 3,
            with_diff: true,
        },
        TestParams {
            kind: PayoutKind::EnumeratedAndNumerical,
            nb_oracles: 5,
            threshold: 5,
            with_diff: true,
        },
    ]
}

/// The names of the test vectors, in the order in which the vectors are generated.
pub open spec fn test_vector_names() -> Seq<Seq<char>> {
    seq![
        "enum_single_oracle"@,
        "enum_3_of_3_oracles"@,
        "enum_3_of_5_oracles"@,
        "numerical_hyperbola_1_oracle"@,
        "numerical_polynomial_1_oracle"@,
        "numerical_polynomial_3_of_3_oracles"@,
        "numerical_polynomial_3_of_3_oracles_with_diff"@,
        "numerical_polynomial_3_of_5_oracles_with_diff"@,
        "numerical_polynomial_2_of_5_oracles"@,
        "numerical_polynomial_2_of_5_oracles_with_diff"@,
        "enum_and_numerical_polynomial_3_of_5_oracles_with_diff"@,
        "enum_and_numerical_polynomial_5_of_5_oracles_with_diff"@,
    ]
}

/// Generates the parameters of the test vectors and, beside them, the names of the vectors.
pub fn generate_test_params() -> (plan: (Vec<TestParams>, Vec<&'static str>))
    ensures
        plan.0@ == test_params_plan(),
        plan.1@.len() == test_vector_names().len(),
        forall|i: int| 0 <= i < plan.1@.len() ==> (#[trigger] plan.1@[i])@ == test_vector_names()[i],
{
    let mut test_params: Vec<TestParams> = Vec::new();
    let mut test_vectors_names: Vec<&'static str> = Vec::new();
    // Enumerated outcomes, 1 oracle
    test_vectors_names.push("enum_single_oracle");
    test_params.push(
        TestParams { kind: PayoutKind::Enumerated, nb_oracles: 1, threshold: 1, with_diff: false },
    );
    // Enumerated outcomes, 3 of 3 oracles
    test_vectors_names.push("enum_3_of_3_oracles");
    test_params.push(
        TestParams { kind: PayoutKind::Enumerated, nb_oracles: 3, threshold: 3, with_diff: false },
    );
    // Enumerated outcomes, 3 of 5 oracles
    test_vectors_names.push("enum_3_of_5_oracles");
    test_params.push(
        TestParams { kind: PayoutKind::Enumerated, nb_oracles: 5, threshold: 3, with_diff: false },
    );
    // Numerical outcome (hyperbola), 1 oracle
    test_vectors_names.push("numerical_hyperbola_1_oracle");
    test_params.push(
        TestParams {
            kind: PayoutKind::NumericalHyperbola,
            nb_oracles: 1,
            threshold: 1,
            with_diff: false,
        },
    );
    // Numerical outcome (polynomial), 1 oracle
    test_vectors_names.push("numerical_polynomial_1_oracle");
    test_params.push(
        TestParams {
            kind: PayoutKind::NumericalPolynomial,
            nb_oracles: 1,
            threshold: 1,
            with_diff: false,
        },
    );
    // Numerical outcome (polynomial), 3 of 3 oracles
    test_vectors_names.push("numerical_polynomial_3_of_3_oracles");
    test_params.push(
        TestParams {
            kind: PayoutKind::NumericalPolynomial,
            nb_oracles: 3,
            threshold: 3,
            with_diff: false,
        },
    );
    // Numerical outcome (polynomial) with diff, 3 of 3 oracles
    test_vectors_names.push("numerical_polynomial_3_of_3_oracles_with_diff");
    test_params.push(
        TestParams {
            kind: PayoutKind::NumericalPolynomial,
            nb_oracles: 3,
            threshold: 3,
            with_diff: true,
        },
    );
    // Numerical outcome (polynomial) with diff, 3 of 5 oracles
    test_vectors_names.push("numerical_polynomial_3_of_5_oracles_with_diff");
    test_params.push(
        TestParams {
            kind: PayoutKind::NumericalPolynomial,
            nb_oracles: 5,
            threshold: 3,
            with_diff: true,
        },
    );
    // Numerical outcome (polynomial), 2 of 5 oracles
    test_vectors_names.push("numerical_polynomial_2_of_5_oracles");
    test_params.push(
        TestParams {
            kind: PayoutKind::NumericalPolynomial,
            nb_oracles: 5,
            threshold: 2,
            with_diff: false,
        },
    );
    // Numerical outcome (polynomial) with diff, 2 of 5 oracles
    test_vectors_names.push("numerical_polynomial_2_of_5_oracles_with_diff");
    test_params.push(
        TestParams {
            kind: PayoutKind::NumericalPolynomial,
            nb_oracles: 5,
            threshold: 2,
            with_diff: true,
        },
    );
    // Enumerated and numerical outcomes, 3 of 5 oracles
    test_vectors_names.push("enum_and_numerical_polynomial_3_of_5_oracles_with_diff");
    test_params.push(
        TestParams {
            kind: PayoutKind::EnumeratedAndNumerical,
            nb_oracles: 5,
            threshold: 3,
            with_diff: true,
        },
    );
    // Enumerated and numerical outcomes, 5 of 5 oracles
    test_vectors_names.push("enum_and_numerical_polynomial_5_of_5_oracles_with_diff");
    test_params.push(
        TestParams {
            kind: PayoutKind::EnumeratedAndNumerical,
            nb_oracles: 5,
            threshold: 5,
            with_diff: true,
        },
    );
    proof {
        assert(test_params@ =~= test_params_plan());
    }
    (test_params, test_vectors_names)
}

/// Every test vector has as many names as parameters, at least one oracle, and asks no more
/// oracles to agree than there are.
pub proof fn lemma_test_params_plan()
    ensures
        test_params_plan().len() == test_vector_names().len(),
        forall|i: int|
            0 <= i < test_params_plan().len() ==> 1 <= (#[trigger] test_params_plan()[i]).threshold
                <= test_params_plan()[i].nb_oracles,
{
}

} // verus!
