use jairika::repository::session_statements;
use jairika::{Activation, Error, Layer, LayerDescriptor, Repository, Scalar, Statement};

fn scalar(x: f32) -> Scalar {
    Scalar::from_bits(x.to_bits())
}

fn layer(name: &str, shape: Vec<usize>) -> LayerDescriptor {
    LayerDescriptor {
        name: String::from(name),
        class: Layer::Hidden,
        shape,
        activation: None,
        dropout: None,
    }
}

fn rendered(statements: &Vec<Statement>) -> Vec<String> {
    statements.iter().map(|s| s.render()).collect()
}

fn refusal(r: Result<Vec<Statement>, Error>) -> String {
    match r {
        Err(Error::LayerAdditionFailed(text)) => text,
        other => panic!("not a refused addition: {:?}", other),
    }
}

#[test]
fn a_new_catalogue_holds_main_and_prime() {
    let repo = Repository::new();
    assert!(repo.has_branch("main"));
    assert!(!repo.has_branch("prime"));
    assert!(!repo.has_branch(""));
    assert_eq!(repo.current_iteration("main"), Some(String::from("prime")));
    assert_eq!(repo.current_iteration("exp1"), None);
    assert!(matches!(repo.describe_layer("main", "prime", "h1"), Err(Error::LayerNotFound(_))));
}

#[test]
fn session_statements_bind_namespace_then_database() {
    assert_eq!(
        rendered(&session_statements("exp1", "prime")),
        vec!["USE NS exp1", "USE DB prime"]
    );
}

#[test]
fn adding_a_layer_returns_its_definition() {
    let mut repo = Repository::new();
    let d = LayerDescriptor {
        name: String::from("h1"),
        class: Layer::Hidden,
        shape: vec![64, 64],
        activation: Some(Activation::elu()),
        dropout: Some(scalar(0.5)),
    };
    let statements = repo.add_layer("main", "prime", d).unwrap();
    assert_eq!(
        rendered(&statements),
        vec![
            "USE NS main",
            "USE DB prime",
            "DEFINE TABLE h1 SCHEMAFULL TYPE NORMAL",
            "DEFINE FIELD bias ON TABLE h1 TYPE array<array<float, 64>, 64>",
            "DEFINE FIELD class ON TABLE h1 TYPE \"hidden\"",
            "DEFINE FIELD activation ON TABLE h1 TYPE \"elu:1065353216\"",
            "DEFINE FIELD dropout ON TABLE h1 TYPE \"1056964608\"",
        ]
    );
}

#[test]
fn a_layer_without_activation_and_dropout_has_three_definitions() {
    let mut repo = Repository::new();
    let d = LayerDescriptor {
        name: String::from("in"),
        class: Layer::Input,
        shape: vec![5],
        activation: None,
        dropout: None,
    };
    let statements = repo.add_layer("main", "prime", d).unwrap();
    assert_eq!(
        rendered(&statements),
        vec![
            "USE NS main",
            "USE DB prime",
            "DEFINE TABLE in SCHEMAFULL TYPE NORMAL",
            "DEFINE FIELD bias ON TABLE in TYPE array<float, 5>",
            "DEFINE FIELD class ON TABLE in TYPE \"input\"",
        ]
    );
    let out = LayerDescriptor {
        name: String::from("out"),
        class: Layer::Output,
        shape: vec![],
        activation: Some(Activation::Softsign),
        dropout: None,
    };
    let statements = repo.add_layer("main", "prime", out).unwrap();
    assert_eq!(
        rendered(&statements)[3..],
        [
            String::from("DEFINE FIELD bias ON TABLE out TYPE float"),
            String::from("DEFINE FIELD class ON TABLE out TYPE \"output\""),
            String::from("DEFINE FIELD activation ON TABLE out TYPE \"softsign\""),
        ]
    );
}

#[test]
fn an_added_layer_is_described_as_given() {
    let mut repo = Repository::new();
    let a = Activation::ReLU {
        threshold: scalar(0.0),
        alpha: scalar(0.25),
        max_value: scalar(6.0),
    };
    let d = LayerDescriptor {
        name: String::from("h2"),
        class: Layer::Output,
        shape: vec![3, 1, 2],
        activation: Some(a),
        dropout: Some(scalar(0.0)),
    };
    repo.add_layer("main", "prime", d).unwrap();
    let found = repo.describe_layer("main", "prime", "h2").unwrap();
    assert_eq!(found.name, "h2");
    assert_eq!(found.class, Layer::Output);
    assert_eq!(found.shape, vec![3, 1, 2]);
    assert_eq!(found.activation, Some(a));
    assert_eq!(found.dropout, Some(scalar(0.0)));
}

#[test]
fn an_empty_name_is_refused() {
    let mut repo = Repository::new();
    assert_eq!(
        refusal(repo.add_layer("main", "prime", layer("", vec![1]))),
        "the name of the layer is empty"
    );
}

#[test]
fn a_zero_dimension_is_refused() {
    let mut repo = Repository::new();
    assert_eq!(
        refusal(repo.add_layer("main", "prime", layer("h1", vec![64, 0]))),
        "the shape of the layer holds a zero"
    );
    assert!(matches!(repo.describe_layer("main", "prime", "h1"), Err(Error::LayerNotFound(_))));
}

#[test]
fn a_dropout_rate_outside_the_unit_interval_is_refused() {
    for rate in [1.0f32, 1.5, -0.1, f32::NAN, f32::INFINITY] {
        let mut repo = Repository::new();
        let mut d = layer("h1", vec![2]);
        d.dropout = Some(scalar(rate));
        assert_eq!(
            refusal(repo.add_layer("main", "prime", d)),
            "the dropout rate is not a number in [0, 1)",
            "rate {:?}",
            rate
        );
    }
    for rate in [0.0f32, -0.0, 0.5, 0.999_999_94] {
        let mut repo = Repository::new();
        let mut d = layer("h1", vec![2]);
        d.dropout = Some(scalar(rate));
        assert!(repo.add_layer("main", "prime", d).is_ok(), "rate {:?}", rate);
        let found = repo.describe_layer("main", "prime", "h1").unwrap();
        assert_eq!(found.dropout, Some(scalar(rate)));
    }
}

#[test]
fn an_invalid_activation_is_refused_as_a_failed_addition() {
    let mut repo = Repository::new();
    let mut d = layer("h1", vec![2]);
    d.activation = Some(Activation::Elu { alpha: scalar(-1.0) });
    assert_eq!(
        refusal(repo.add_layer("main", "prime", d)),
        "alpha of elu must be greater than zero"
    );
    let mut d = layer("h1", vec![2]);
    d.activation = Some(Activation::SeLU { scale: scalar(f32::NAN), alpha: scalar(1.0) });
    assert_eq!(
        refusal(repo.add_layer("main", "prime", d)),
        "scale and alpha of selu must be finite"
    );
    assert!(repo.describe_layer("main", "prime", "h1").is_err());
}

#[test]
fn the_first_broken_rule_is_reported() {
    let mut repo = Repository::new();
    let mut d = layer("", vec![0]);
    d.dropout = Some(scalar(2.0));
    d.activation = Some(Activation::Elu { alpha: scalar(0.0) });
    assert_eq!(refusal(repo.add_layer("nowhere", "prime", d)), "the name of the layer is empty");
    let mut d = layer("x", vec![0]);
    d.dropout = Some(scalar(2.0));
    assert_eq!(
        refusal(repo.add_layer("nowhere", "prime", d)),
        "the shape of the layer holds a zero"
    );
    let mut d = layer("x", vec![1]);
    d.dropout = Some(scalar(2.0));
    d.activation = Some(Activation::Elu { alpha: scalar(0.0) });
    assert_eq!(
        refusal(repo.add_layer("nowhere", "prime", d)),
        "the dropout rate is not a number in [0, 1)"
    );
}

#[test]
fn an_iteration_that_does_not_exist_takes_no_layer() {
    let mut repo = Repository::new();
    assert_eq!(
        refusal(repo.add_layer("main", "second", layer("h1", vec![1]))),
        "the iteration does not exist"
    );
    assert_eq!(
        refusal(repo.add_layer("exp1", "prime", layer("h1", vec![1]))),
        "the iteration does not exist"
    );
}

#[test]
fn a_second_layer_of_the_same_name_is_refused() {
    let mut repo = Repository::new();
    assert!(repo.add_layer("main", "prime", layer("h1", vec![1])).is_ok());
    assert_eq!(
        refusal(repo.add_layer("main", "prime", layer("h1", vec![2, 2]))),
        "a layer of this name exists already"
    );
    let found = repo.describe_layer("main", "prime", "h1").unwrap();
    assert_eq!(found.shape, vec![1]);
    assert!(repo.add_layer("main", "prime", layer("h2", vec![2, 2])).is_ok());
}

#[test]
fn removing_takes_the_layer_out() {
    let mut repo = Repository::new();
    repo.add_layer("main", "prime", layer("h1", vec![1])).unwrap();
    repo.add_layer("main", "prime", layer("h2", vec![2])).unwrap();
    repo.add_layer("main", "prime", layer("h3", vec![3])).unwrap();
    let statements = repo.remove_layer("main", "prime", "h2").unwrap();
    assert_eq!(rendered(&statements), vec!["USE NS main", "USE DB prime", "REMOVE TABLE h2"]);
    assert!(matches!(
        repo.describe_layer("main", "prime", "h2"),
        Err(Error::LayerNotFound(name)) if name == "h2"
    ));
    assert_eq!(repo.describe_layer("main", "prime", "h1").unwrap().shape, vec![1]);
    assert_eq!(repo.describe_layer("main", "prime", "h3").unwrap().shape, vec![3]);
}

#[test]
fn removing_what_is_not_there_fails() {
    let mut repo = Repository::new();
    match repo.remove_layer("main", "prime", "input_layer") {
        Err(Error::LayerRemovalFailed(text)) => assert_eq!(text, "no layer of this name exists"),
        other => panic!("{:?}", other),
    }
    match repo.remove_layer("exp1", "prime", "input_layer") {
        Err(Error::LayerRemovalFailed(text)) => assert_eq!(text, "the iteration does not exist"),
        other => panic!("{:?}", other),
    }
}

#[test]
fn removing_twice_fails_the_second_time() {
    let mut repo = Repository::new();
    repo.add_layer("main", "prime", layer("h1", vec![1])).unwrap();
    assert!(repo.remove_layer("main", "prime", "h1").is_ok());
    assert!(repo.describe_layer("main", "prime", "h1").is_err());
    assert!(matches!(
        repo.remove_layer("main", "prime", "h1"),
        Err(Error::LayerRemovalFailed(_))
    ));
    assert!(repo.add_layer("main", "prime", layer("h1", vec![9])).is_ok());
    assert_eq!(repo.describe_layer("main", "prime", "h1").unwrap().shape, vec![9]);
}

#[test]
fn deriving_copies_the_layers_of_the_parent() {
    let mut repo = Repository::new();
    let mut d = layer("h1", vec![4]);
    d.activation = Some(Activation::Tanh);
    repo.add_layer("main", "prime", d).unwrap();
    repo.add_layer("main", "prime", layer("h2", vec![2, 2])).unwrap();
    let statements = repo.derive("main", "exp1").unwrap();
    assert_eq!(
        rendered(&statements),
        vec![
            "DEFINE NAMESPACE IF NOT EXISTS exp1",
            "USE NS exp1",
            "DEFINE DATABASE prime",
            "USE DB prime",
            "DEFINE TABLE h1 SCHEMAFULL TYPE NORMAL",
            "DEFINE FIELD bias ON TABLE h1 TYPE array<float, 4>",
            "DEFINE FIELD class ON TABLE h1 TYPE \"hidden\"",
            "DEFINE FIELD activation ON TABLE h1 TYPE \"tanh\"",
            "DEFINE TABLE h2 SCHEMAFULL TYPE NORMAL",
            "DEFINE FIELD bias ON TABLE h2 TYPE array<array<float, 2>, 2>",
            "DEFINE FIELD class ON TABLE h2 TYPE \"hidden\"",
        ]
    );
    assert!(repo.has_branch("exp1"));
    assert_eq!(repo.current_iteration("exp1"), Some(String::from("prime")));
    let copied = repo.describe_layer("exp1", "prime", "h1").unwrap();
    assert_eq!(copied.shape, vec![4]);
    assert_eq!(copied.activation, Some(Activation::Tanh));
    assert_eq!(repo.describe_layer("exp1", "prime", "h2").unwrap().shape, vec![2, 2]);
}

#[test]
fn deriving_from_an_empty_parent_defines_the_variant_only() {
    let mut repo = Repository::new();
    let statements = repo.derive("main", "exp1").unwrap();
    assert_eq!(
        rendered(&statements),
        vec![
            "DEFINE NAMESPACE IF NOT EXISTS exp1",
            "USE NS exp1",
            "DEFINE DATABASE prime",
            "USE DB prime",
        ]
    );
}

#[test]
fn deriving_fails_without_parent_or_onto_an_existing_variant() {
    let mut repo = Repository::new();
    match repo.derive("nowhere", "exp1") {
        Err(Error::BranchCreationFailed(text)) => {
            assert_eq!(text, "the parent variant does not exist")
        }
        other => panic!("{:?}", other),
    }
    assert!(!repo.has_branch("exp1"));
    repo.derive("main", "exp1").unwrap();
    match repo.derive("main", "exp1") {
        Err(Error::BranchCreationFailed(text)) => assert_eq!(text, "the variant exists already"),
        other => panic!("{:?}", other),
    }
    match repo.derive("exp1", "main") {
        Err(Error::BranchCreationFailed(text)) => assert_eq!(text, "the variant exists already"),
        other => panic!("{:?}", other),
    }
    assert!(repo.derive("exp1", "exp2").is_ok());
}

#[test]
fn variants_do_not_see_each_other_after_deriving() {
    let mut repo = Repository::new();
    repo.add_layer("main", "prime", layer("shared", vec![1])).unwrap();
    repo.derive("main", "exp1").unwrap();
    repo.add_layer("exp1", "prime", layer("only_exp1", vec![2])).unwrap();
    repo.add_layer("main", "prime", layer("only_main", vec![3])).unwrap();
    repo.remove_layer("exp1", "prime", "shared").unwrap();
    assert!(repo.describe_layer("main", "prime", "shared").is_ok());
    assert!(repo.describe_layer("main", "prime", "only_main").is_ok());
    assert!(repo.describe_layer("main", "prime", "only_exp1").is_err());
    assert!(repo.describe_layer("exp1", "prime", "shared").is_err());
    assert!(repo.describe_layer("exp1", "prime", "only_main").is_err());
    assert!(repo.describe_layer("exp1", "prime", "only_exp1").is_ok());
}
