use jairika::layer::{has_zero, render_record};
use jairika::statement::render_tensor;
use jairika::text::{render_decimal, same_text};
use jairika::{Activation, ActivationRecord, FieldType, Scalar, Statement};

fn text(s: &str) -> String {
    String::from(s)
}

#[test]
fn decimal_notation_has_no_leading_zeros() {
    assert_eq!(render_decimal(0), "0");
    assert_eq!(render_decimal(7), "7");
    assert_eq!(render_decimal(10), "10");
    assert_eq!(render_decimal(64), "64");
    assert_eq!(render_decimal(1905), "1905");
    assert_eq!(render_decimal(1_065_353_216), "1065353216");
    assert_eq!(render_decimal(u64::MAX), "18446744073709551615");
}

#[test]
fn decimal_notation_agrees_with_std() {
    for n in [1u64, 9, 11, 99, 100, 101, 12_345, 4_294_967_295, 1 << 40] {
        assert_eq!(render_decimal(n), n.to_string());
    }
}

#[test]
fn same_text_compares_whole_texts() {
    assert!(same_text("", ""));
    assert!(same_text("main", "main"));
    assert!(!same_text("main", "Main"));
    assert!(!same_text("main", "mai"));
    assert!(!same_text("", "x"));
}

#[test]
fn tensor_types_nest_with_the_first_dimension_outermost() {
    assert_eq!(render_tensor(&vec![]), "float");
    assert_eq!(render_tensor(&vec![5]), "array<float, 5>");
    assert_eq!(render_tensor(&vec![64, 64]), "array<array<float, 64>, 64>");
    assert_eq!(render_tensor(&vec![2, 3, 4]), "array<array<array<float, 4>, 3>, 2>");
    assert_eq!(FieldType::Tensor(vec![2, 3]).render(), "array<array<float, 3>, 2>");
}

#[test]
fn labels_stand_between_quotes() {
    assert_eq!(FieldType::Label(text("hidden")).render(), "\"hidden\"");
    assert_eq!(FieldType::Label(text("")).render(), "\"\"");
}

#[test]
fn statements_render_to_their_text() {
    assert_eq!(
        Statement::DefineNamespace { name: text("exp1") }.render(),
        "DEFINE NAMESPACE IF NOT EXISTS exp1"
    );
    assert_eq!(Statement::UseNamespace { name: text("main") }.render(), "USE NS main");
    assert_eq!(Statement::DefineDatabase { name: text("prime") }.render(), "DEFINE DATABASE prime");
    assert_eq!(Statement::UseDatabase { name: text("prime") }.render(), "USE DB prime");
    assert_eq!(
        Statement::DefineTable { name: text("input_layer") }.render(),
        "DEFINE TABLE input_layer SCHEMAFULL TYPE NORMAL"
    );
    assert_eq!(
        Statement::DefineField {
            field: text("bias"),
            table: text("h1"),
            kind: FieldType::Tensor(vec![64, 64]),
        }
        .render(),
        "DEFINE FIELD bias ON TABLE h1 TYPE array<array<float, 64>, 64>"
    );
    assert_eq!(
        Statement::DefineField {
            field: text("class"),
            table: text("h1"),
            kind: FieldType::Label(text("hidden")),
        }
        .render(),
        "DEFINE FIELD class ON TABLE h1 TYPE \"hidden\""
    );
    assert_eq!(Statement::RemoveTable { name: text("h1") }.render(), "REMOVE TABLE h1");
}

#[test]
fn the_field_definition_names_the_table_it_is_given() {
    let rendered = Statement::DefineField {
        field: text("bias"),
        table: text("output_layer"),
        kind: FieldType::Tensor(vec![10]),
    }
    .render();
    assert_eq!(rendered, "DEFINE FIELD bias ON TABLE output_layer TYPE array<float, 10>");
    assert!(!rendered.contains("input_layer"));
}

#[test]
fn record_text_is_tag_and_parameters() {
    assert_eq!(render_record(&Activation::Tanh.to_schema_representation()), "tanh");
    assert_eq!(render_record(&Activation::elu().to_schema_representation()), "elu:1065353216");
    assert_eq!(
        render_record(&Activation::relu().to_schema_representation()),
        "relu:0:0:2139095040"
    );
    assert_eq!(
        render_record(&Activation::selu().to_schema_representation()),
        format!("selu:{}:{}", 0x3f86_7d5fu32, 0x3fd6_2d7du32)
    );
    let odd = ActivationRecord { tag: text("x"), params: vec![1, 22, 333] };
    assert_eq!(render_record(&odd), "x:1:22:333");
    assert_eq!(Scalar::from_bits(2_139_095_040), Scalar::infinity());
}

#[test]
fn has_zero_finds_a_zero_anywhere() {
    assert!(!has_zero(&vec![]));
    assert!(!has_zero(&vec![1, 2, 3]));
    assert!(has_zero(&vec![0]));
    assert!(has_zero(&vec![4, 0, 4]));
    assert!(has_zero(&vec![4, 4, 0]));
}
